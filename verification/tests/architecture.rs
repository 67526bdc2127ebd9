use emel_model::architecture::{
    actor_availability, classify_route, default_architecture_span, is_gemma4_execution_architecture,
    is_lfm2_execution_architecture, is_moshi_execution_architecture, is_omniembed_execution_architecture,
    is_sortformer_execution_architecture, is_supported_execution_architecture, is_whisper_execution_architecture,
    resolve_architecture, resolve_family, resolve_route, ActorAvailability, Family, Route, RouteOutcome,
};

#[test]
fn default_registry_resolves_source_fixed_names() {
    let architectures = default_architecture_span();
    assert_eq!(architectures.len(), 8);
    assert_eq!(
        resolve_architecture("llama", &architectures).map(|a| a.name),
        Some("llama")
    );
    assert!(resolve_architecture("missing", &architectures).is_none());
    for name in [
        b"llama".as_slice(),
        b"qwen3",
        b"lfm2",
        b"gemma4",
        b"omniembed",
        b"sortformer",
        b"whisper",
        b"moshi",
    ] {
        assert!(is_supported_execution_architecture(name));
    }
    assert!(!is_supported_execution_architecture(b"unknown"));
    assert!(is_lfm2_execution_architecture(b"lfm2"));
    assert!(!is_lfm2_execution_architecture(b"llama"));
    assert!(is_gemma4_execution_architecture(b"gemma4"));
    assert!(!is_gemma4_execution_architecture(b"llama"));
    assert_eq!(classify_route(b"llama"), RouteOutcome::Supported);
    assert_eq!(classify_route(b"unknown"), RouteOutcome::Unsupported);
    assert_eq!(resolve_family(b"llama"), Some(Family::Llama));
    assert_eq!(resolve_family(b"qwen3"), Some(Family::Qwen3));
    assert_eq!(resolve_family(b"lfm2"), Some(Family::Lfm2));
    assert_eq!(resolve_family(b"gemma4"), Some(Family::Gemma4));
    assert_eq!(resolve_family(b"omniembed"), Some(Family::OmniEmbed));
    assert_eq!(resolve_family(b"sortformer"), Some(Family::Sortformer));
    assert_eq!(resolve_family(b"whisper"), Some(Family::Whisper));
    assert_eq!(resolve_family(b"moshi"), Some(Family::Moshi));
    assert_eq!(resolve_family(b"gemma4.extra"), None);
    assert_eq!(
        resolve_route(b"omniembed"),
        Some(Route {
            family: Family::OmniEmbed,
            availability: ActorAvailability::PendingPort,
        })
    );
    assert_eq!(
        resolve_route(b"llama"),
        Some(Route {
            family: Family::Llama,
            availability: ActorAvailability::Maintained,
        })
    );
    assert_eq!(resolve_route(b"omniembed.extra"), None);
    assert_eq!(resolve_route(&[0xff, b'l', b'l', b'a', b'm', b'a']), None);
    assert_eq!(actor_availability(Family::Gemma4), ActorAvailability::Maintained);
    assert_eq!(actor_availability(Family::Moshi), ActorAvailability::PendingPort);
    assert!(!is_supported_execution_architecture(&[0xff, b'l', b'a', b'm', b'a']));
    assert!(!is_lfm2_execution_architecture(b"lfm2.extra"));
    assert!(!is_gemma4_execution_architecture(b"gemma4.extra"));
    assert!(!is_omniembed_execution_architecture(b"omniembed.extra"));
    assert!(!is_sortformer_execution_architecture(b"sortformer.extra"));
    assert!(!is_whisper_execution_architecture(b"whisper.extra"));
    assert!(!is_moshi_execution_architecture(b"moshi.extra"));
}

#[test]
fn every_family_has_explicit_route_and_availability() {
    let cases = [
        (b"llama".as_slice(), Family::Llama, ActorAvailability::Maintained),
        (b"qwen3", Family::Qwen3, ActorAvailability::Maintained),
        (b"lfm2", Family::Lfm2, ActorAvailability::Maintained),
        (b"gemma4", Family::Gemma4, ActorAvailability::Maintained),
        (b"omniembed", Family::OmniEmbed, ActorAvailability::PendingPort),
        (b"sortformer", Family::Sortformer, ActorAvailability::PendingPort),
        (b"whisper", Family::Whisper, ActorAvailability::PendingPort),
        (b"moshi", Family::Moshi, ActorAvailability::PendingPort),
    ];
    for (name, family, availability) in cases {
        assert_eq!(resolve_route(name), Some(Route { family, availability }));
        assert_eq!(actor_availability(family), availability);
    }
}

#[test]
fn supported_names_are_exactly_the_routed_ones() {
    for name in [b"llama".as_slice(), b"moshi", b"lfm2", b"", b"llam", b"LLAMA", b"llama\0"] {
        assert_eq!(
            is_supported_execution_architecture(name),
            resolve_route(name).is_some()
        );
        assert_eq!(
            classify_route(name) == RouteOutcome::Supported,
            resolve_family(name).is_some()
        );
    }
    assert!(is_moshi_execution_architecture(b"moshi"));
    assert!(is_whisper_execution_architecture(b"whisper"));
    assert!(is_omniembed_execution_architecture(b"omniembed"));
    assert!(is_sortformer_execution_architecture(b"sortformer"));
    assert!(!is_moshi_execution_architecture(b""));
}
