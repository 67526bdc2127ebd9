//! Architecture registry and family routing.

use vstd::prelude::*;
use vstd::string::StringSliceAdditionalSpecFns;

use crate::bytes::{bytes_equal, lemma_str_bytes_injective};

verus! {

/// Architecture plugin entry.
#[derive(Clone, Copy, Debug)]
pub struct Architecture {
    /// Architecture name key (e.g. `"llama"`).
    pub name: &'static str,
}

/// Result of the common architecture routing boundary.
#[derive(Clone, Copy, Debug, PartialEq, Eq, Structural)]
pub enum RouteOutcome {
    /// The architecture name is registered and can be routed to its family actor.
    Supported,
    /// The architecture name is not present in the registry.
    Unsupported,
}

/// Public family identity selected by the architecture registry.
#[derive(Clone, Copy, Debug, PartialEq, Eq, Structural)]
pub enum Family {
    Llama,
    Qwen3,
    Lfm2,
    Gemma4,
    OmniEmbed,
    Sortformer,
    Whisper,
    Moshi,
}

/// Whether a resolved family currently exposes a maintained actor boundary.
#[derive(Clone, Copy, Debug, PartialEq, Eq, Structural)]
pub enum ActorAvailability {
    Maintained,
    PendingPort,
}

/// Exact architecture routing result used by model-domain orchestrators.
#[derive(Clone, Copy, Debug, PartialEq, Eq, Structural)]
pub struct Route {
    pub family: Family,
    pub availability: ActorAvailability,
}

/// Number of registered architectures.
pub const ARCHITECTURE_COUNT: usize = 8;

/// The registered name bytes of a family.
pub open spec fn family_name(family: Family) -> Seq<u8> {
    match family {
        Family::Llama => seq![108u8, 108u8, 97u8, 109u8, 97u8],
        Family::Qwen3 => seq![113u8, 119u8, 101u8, 110u8, 51u8],
        Family::Lfm2 => seq![108u8, 102u8, 109u8, 50u8],
        Family::Gemma4 => seq![103u8, 101u8, 109u8, 109u8, 97u8, 52u8],
        Family::OmniEmbed => seq![111u8, 109u8, 110u8, 105u8, 101u8, 109u8, 98u8, 101u8, 100u8],
        Family::Sortformer => seq![115u8, 111u8, 114u8, 116u8, 102u8, 111u8, 114u8, 109u8, 101u8, 114u8],
        Family::Whisper => seq![119u8, 104u8, 105u8, 115u8, 112u8, 101u8, 114u8],
        Family::Moshi => seq![109u8, 111u8, 115u8, 104u8, 105u8],
    }
}

/// Registry order of the families.
pub open spec fn family_at(index: int) -> Family {
    if index == 0 {
        Family::Llama
    } else if index == 1 {
        Family::Qwen3
    } else if index == 2 {
        Family::Lfm2
    } else if index == 3 {
        Family::Gemma4
    } else if index == 4 {
        Family::OmniEmbed
    } else if index == 5 {
        Family::Sortformer
    } else if index == 6 {
        Family::Whisper
    } else {
        Family::Moshi
    }
}

/// The family whose registered name is exactly `name`, if any.
pub open spec fn spec_resolve_family(name: Seq<u8>) -> Option<Family> {
    if name == family_name(Family::Llama) {
        Some(Family::Llama)
    } else if name == family_name(Family::Qwen3) {
        Some(Family::Qwen3)
    } else if name == family_name(Family::Lfm2) {
        Some(Family::Lfm2)
    } else if name == family_name(Family::Gemma4) {
        Some(Family::Gemma4)
    } else if name == family_name(Family::OmniEmbed) {
        Some(Family::OmniEmbed)
    } else if name == family_name(Family::Sortformer) {
        Some(Family::Sortformer)
    } else if name == family_name(Family::Whisper) {
        Some(Family::Whisper)
    } else if name == family_name(Family::Moshi) {
        Some(Family::Moshi)
    } else {
        None
    }
}

/// Availability of a family's actor boundary.
pub open spec fn spec_actor_availability(family: Family) -> ActorAvailability {
    match family {
        Family::Llama | Family::Qwen3 | Family::Lfm2 | Family::Gemma4 => ActorAvailability::Maintained,
        _ => ActorAvailability::PendingPort,
    }
}

/// Whether `name` is registered in the table `available`.
pub open spec fn table_contains(available: Seq<Architecture>, name: Seq<char>) -> bool {
    exists|i: int| 0 <= i < available.len() && (#[trigger] available[i]).name@ == name
}

/// Index of the first entry of `available` whose name is `name`.
pub open spec fn first_index(available: Seq<Architecture>, name: Seq<char>) -> int
    recommends
        table_contains(available, name),
{
    choose|i: int|
        0 <= i < available.len() && (#[trigger] available[i]).name@ == name && forall|j: int|
            0 <= j < i ==> available[j].name@ != name
}

/// Resolves an exact architecture name and reports its owner boundary.
pub fn resolve_route(name: &[u8]) -> (route: Option<Route>)
    ensures
        route == (match spec_resolve_family(name@) {
            Some(family) => Some(
                Route { family, availability: spec_actor_availability(family) },
            ),
            None => None,
        }),
{
    match resolve_family(name) {
        Some(family) => Some(Route { family, availability: actor_availability(family) }),
        None => None,
    }
}

/// Reports actor availability without constructing or exposing actor internals.
pub fn actor_availability(family: Family) -> (availability: ActorAvailability)
    ensures
        availability == spec_actor_availability(family),
{
    match family {
        Family::Llama | Family::Qwen3 | Family::Lfm2 | Family::Gemma4 => {
            ActorAvailability::Maintained
        },
        Family::OmniEmbed | Family::Sortformer | Family::Whisper | Family::Moshi => {
            ActorAvailability::PendingPort
        },
    }
}

/// Resolves an exact architecture name to its family identity.
pub fn resolve_family(name: &[u8]) -> (family: Option<Family>)
    ensures
        family == spec_resolve_family(name@),
{
    if bytes_equal(name, &[108u8, 108u8, 97u8, 109u8, 97u8]) {
        Some(Family::Llama)
    } else if bytes_equal(name, &[113u8, 119u8, 101u8, 110u8, 51u8]) {
        Some(Family::Qwen3)
    } else if bytes_equal(name, &[108u8, 102u8, 109u8, 50u8]) {
        Some(Family::Lfm2)
    } else if bytes_equal(name, &[103u8, 101u8, 109u8, 109u8, 97u8, 52u8]) {
        Some(Family::Gemma4)
    } else if bytes_equal(name, &[111u8, 109u8, 110u8, 105u8, 101u8, 109u8, 98u8, 101u8, 100u8]) {
        Some(Family::OmniEmbed)
    } else if bytes_equal(name, &[115u8, 111u8, 114u8, 116u8, 102u8, 111u8, 114u8, 109u8, 101u8, 114u8]) {
        Some(Family::Sortformer)
    } else if bytes_equal(name, &[119u8, 104u8, 105u8, 115u8, 112u8, 101u8, 114u8]) {
        Some(Family::Whisper)
    } else if bytes_equal(name, &[109u8, 111u8, 115u8, 104u8, 105u8]) {
        Some(Family::Moshi)
    } else {
        None
    }
}

/// Classifies an architecture before family-specific actor validation.
pub fn classify_route(name: &[u8]) -> (outcome: RouteOutcome)
    ensures
        outcome == (if spec_resolve_family(name@) is Some {
            RouteOutcome::Supported
        } else {
            RouteOutcome::Unsupported
        }),
{
    if is_supported_execution_architecture(name) {
        RouteOutcome::Supported
    } else {
        RouteOutcome::Unsupported
    }
}

/// Default architecture table in registry order.
pub fn default_architecture_span() -> (table: Vec<Architecture>)
    ensures
        table@.len() == ARCHITECTURE_COUNT,
        forall|i: int|
            0 <= i < ARCHITECTURE_COUNT ==> (#[trigger] table@[i]).name.spec_bytes() == family_name(
                family_at(i),
            ),
{
    let table = vec![
        Architecture { name: "llama" },
        Architecture { name: "qwen3" },
        Architecture { name: "lfm2" },
        Architecture { name: "gemma4" },
        Architecture { name: "omniembed" },
        Architecture { name: "sortformer" },
        Architecture { name: "whisper" },
        Architecture { name: "moshi" },
    ];
    proof {
        lemma_registry_name_bytes();
        assert forall|i: int| 0 <= i < ARCHITECTURE_COUNT implies (#[trigger] table@[i]).name.spec_bytes()
            == family_name(family_at(i)) by {
            if i == 0 {
            } else if i == 1 {
            } else if i == 2 {
            } else if i == 3 {
            } else if i == 4 {
            } else if i == 5 {
            } else if i == 6 {
            } else {
            }
        }
    }
    table
}

/// Resolve an architecture by exact name against an available table.
pub fn resolve_architecture<'a>(name: &str, available: &'a [Architecture]) -> (found: Option<
    &'a Architecture,
>)
    ensures
        found is Some <==> table_contains(available@, name@),
        found matches Some(entry) ==> *entry == available@[first_index(available@, name@)],
{
    let mut i: usize = 0;
    while i < available.len()
        invariant
            i <= available@.len(),
            forall|j: int| 0 <= j < i ==> available@[j].name@ != name@,
        decreases available@.len() - i,
    {
        let candidate = &available[i];
        let equal = bytes_equal(candidate.name.as_bytes(), name.as_bytes());
        proof {
            lemma_str_bytes_injective(candidate.name, name);
        }
        if equal {
            assert(available@[i as int].name@ == name@);
            let ghost k = first_index(available@, name@);
            assert(0 <= k < available@.len() && available@[k].name@ == name@);
            assert(k == i);
            return Some(candidate);
        }
        i = i + 1;
    }
    None
}

/// Whether `name` is exactly the UTF-8 encoding of a registered architecture name.
pub fn is_supported_execution_architecture(name: &[u8]) -> (supported: bool)
    ensures
        supported == (spec_resolve_family(name@) is Some),
{
    let table = default_architecture_span();
    let mut i: usize = 0;
    while i < table.len()
        invariant
            table@.len() == ARCHITECTURE_COUNT,
            forall|k: int|
                0 <= k < ARCHITECTURE_COUNT ==> (#[trigger] table@[k]).name.spec_bytes()
                    == family_name(family_at(k)),
            i <= ARCHITECTURE_COUNT,
            forall|j: int| 0 <= j < i ==> name@ != family_name(family_at(j)),
        decreases ARCHITECTURE_COUNT - i,
    {
        assert(table@[i as int].name.spec_bytes() == family_name(family_at(i as int)));
        if bytes_equal(name, table[i].name.as_bytes()) {
            return true;
        }
        i = i + 1;
    }
    assert(name@ != family_name(family_at(0)));
    assert(name@ != family_name(family_at(1)));
    assert(name@ != family_name(family_at(2)));
    assert(name@ != family_name(family_at(3)));
    assert(name@ != family_name(family_at(4)));
    assert(name@ != family_name(family_at(5)));
    assert(name@ != family_name(family_at(6)));
    assert(name@ != family_name(family_at(7)));
    false
}

/// Returns whether the architecture is the LFM2 execution family.
pub fn is_lfm2_execution_architecture(name: &[u8]) -> (matched: bool)
    ensures
        matched == (name@ == family_name(Family::Lfm2)),
{
    bytes_equal(name, &[108u8, 102u8, 109u8, 50u8])
}

/// Returns whether the architecture is the Gemma4 execution family.
pub fn is_gemma4_execution_architecture(name: &[u8]) -> (matched: bool)
    ensures
        matched == (name@ == family_name(Family::Gemma4)),
{
    bytes_equal(name, &[103u8, 101u8, 109u8, 109u8, 97u8, 52u8])
}

/// Returns whether the architecture is the Moshi family.
pub fn is_moshi_execution_architecture(name: &[u8]) -> (matched: bool)
    ensures
        matched == (name@ == family_name(Family::Moshi)),
{
    bytes_equal(name, &[109u8, 111u8, 115u8, 104u8, 105u8])
}

/// Returns whether the architecture is the Whisper family.
pub fn is_whisper_execution_architecture(name: &[u8]) -> (matched: bool)
    ensures
        matched == (name@ == family_name(Family::Whisper)),
{
    bytes_equal(name, &[119u8, 104u8, 105u8, 115u8, 112u8, 101u8, 114u8])
}

/// Returns whether the architecture is the OmniEmbed family.
pub fn is_omniembed_execution_architecture(name: &[u8]) -> (matched: bool)
    ensures
        matched == (name@ == family_name(Family::OmniEmbed)),
{
    bytes_equal(name, &[111u8, 109u8, 110u8, 105u8, 101u8, 109u8, 98u8, 101u8, 100u8])
}

/// Returns whether the architecture is the Sortformer family.
pub fn is_sortformer_execution_architecture(name: &[u8]) -> (matched: bool)
    ensures
        matched == (name@ == family_name(Family::Sortformer)),
{
    bytes_equal(name, &[115u8, 111u8, 114u8, 116u8, 102u8, 111u8, 114u8, 109u8, 101u8, 114u8])
}

/// Every name that resolves to a family is reported as supported, and only those.
pub proof fn lemma_route_iff_supported(name: Seq<u8>)
    ensures
        (spec_resolve_family(name) is Some) <==> exists|i: int|
            0 <= i < ARCHITECTURE_COUNT && name == #[trigger] family_name(family_at(i)),
{
    if spec_resolve_family(name) is Some {
        let f = spec_resolve_family(name).unwrap();
        let i: int = match f {
            Family::Llama => 0,
            Family::Qwen3 => 1,
            Family::Lfm2 => 2,
            Family::Gemma4 => 3,
            Family::OmniEmbed => 4,
            Family::Sortformer => 5,
            Family::Whisper => 6,
            Family::Moshi => 7,
        };
        assert(name == family_name(family_at(i)));
    }
}

/// A resolved family's registered name is exactly the name that was resolved.
pub proof fn lemma_resolve_family_round_trip(family: Family)
    ensures
        spec_resolve_family(family_name(family)) == Some(family),
{
    match family {
        Family::Llama => {},
        Family::Qwen3 => {},
        Family::Lfm2 => {},
        Family::Gemma4 => {},
        Family::OmniEmbed => {},
        Family::Sortformer => {},
        Family::Whisper => {},
        Family::Moshi => {},
    }
}

/// The registered `&str` names encode exactly to the family name bytes.
pub proof fn lemma_registry_name_bytes()
    ensures
        "llama".spec_bytes() == family_name(Family::Llama),
        "qwen3".spec_bytes() == family_name(Family::Qwen3),
        "lfm2".spec_bytes() == family_name(Family::Lfm2),
        "gemma4".spec_bytes() == family_name(Family::Gemma4),
        "omniembed".spec_bytes() == family_name(Family::OmniEmbed),
        "sortformer".spec_bytes() == family_name(Family::Sortformer),
        "whisper".spec_bytes() == family_name(Family::Whisper),
        "moshi".spec_bytes() == family_name(Family::Moshi),
{
    broadcast use vstd::string::is_ascii_spec_bytes;

    reveal_strlit("llama");
    assert(vstd::string::is_ascii("llama"));
    assert("llama".spec_bytes() =~= family_name(Family::Llama));
    reveal_strlit("qwen3");
    assert(vstd::string::is_ascii("qwen3"));
    assert("qwen3".spec_bytes() =~= family_name(Family::Qwen3));
    reveal_strlit("lfm2");
    assert(vstd::string::is_ascii("lfm2"));
    assert("lfm2".spec_bytes() =~= family_name(Family::Lfm2));
    reveal_strlit("gemma4");
    assert(vstd::string::is_ascii("gemma4"));
    assert("gemma4".spec_bytes() =~= family_name(Family::Gemma4));
    reveal_strlit("omniembed");
    assert(vstd::string::is_ascii("omniembed"));
    assert("omniembed".spec_bytes() =~= family_name(Family::OmniEmbed));
    reveal_strlit("sortformer");
    assert(vstd::string::is_ascii("sortformer"));
    assert("sortformer".spec_bytes() =~= family_name(Family::Sortformer));
    reveal_strlit("whisper");
    assert(vstd::string::is_ascii("whisper"));
    assert("whisper".spec_bytes() =~= family_name(Family::Whisper));
    reveal_strlit("moshi");
    assert(vstd::string::is_ascii("moshi"));
    assert("moshi".spec_bytes() =~= family_name(Family::Moshi));
}

} // verus!
