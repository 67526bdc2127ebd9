//! Model-loader outcomes. The I/O strategy kind and the mapping failure belong
//! to the I/O layer; the loader only carries them, so they are type parameters.

use vstd::prelude::*;

verus! {

/// Model-loader error classes; `MappedReleaseFailed` carries the mapping layer's
/// own failure.
#[derive(Clone, Copy, Debug, PartialEq, Eq, Structural)]
pub enum Error<M> {
    NoError,
    InvalidRequest,
    ParseFailed,
    BackendError,
    ModelInvalid,
    InternalError,
    Untracked,
    IoStrategyUnavailable,
    MappedReleaseFailed(M),
    Unknown(u32),
}

/// Statistics of one completed load.
#[derive(Clone, Copy, Debug, PartialEq, Eq, Structural)]
pub struct LoadStats<S> {
    pub bytes_total: u64,
    pub bytes_done: u64,
    pub used_mmap: bool,
    pub used_strategy: S,
}

impl<S: Copy> LoadStats<S> {
    /// Statistics of a load that moved nothing with the strategy `none`.
    pub fn empty(none: S) -> (stats: Self)
        ensures
            stats == (LoadStats { bytes_total: 0, bytes_done: 0, used_mmap: false, used_strategy: none }),
    {
        LoadStats { bytes_total: 0, bytes_done: 0, used_mmap: false, used_strategy: none }
    }

    pub fn bytes_total(self) -> (bytes: u64)
        ensures
            bytes == self.bytes_total,
    {
        self.bytes_total
    }

    pub fn bytes_done(self) -> (bytes: u64)
        ensures
            bytes == self.bytes_done,
    {
        self.bytes_done
    }

    pub fn used_mmap(self) -> (used: bool)
        ensures
            used == self.used_mmap,
    {
        self.used_mmap
    }

    pub fn used_strategy(self) -> (strategy: S)
        ensures
            strategy == self.used_strategy,
    {
        self.used_strategy
    }
}

/// The failure handed to the caller's error callback: the error, the strategy
/// the request asked for and the one the load used.
#[derive(Clone, Copy, Debug, PartialEq, Eq, Structural)]
pub struct LoadError<S, M> {
    pub error: Error<M>,
    pub requested_strategy: S,
    pub used_strategy: S,
}

impl<S: Copy, M: Copy> LoadError<S, M> {
    pub fn new(error: Error<M>, requested_strategy: S, used_strategy: S) -> (failure: Self)
        ensures
            failure == (LoadError { error, requested_strategy, used_strategy }),
    {
        LoadError { error, requested_strategy, used_strategy }
    }

    pub fn error(self) -> (error: Error<M>)
        ensures
            error == self.error,
    {
        self.error
    }

    pub fn requested_strategy(self) -> (strategy: S)
        ensures
            strategy == self.requested_strategy,
    {
        self.requested_strategy
    }

    pub fn used_strategy(self) -> (strategy: S)
        ensures
            strategy == self.used_strategy,
    {
        self.used_strategy
    }
}

} // verus!

verus! {

/// Where a model is read from: a path, a caller-owned file image, and the
/// caller's opened split-file mappings (`F` is the mapping layer's handle).
#[derive(Clone, Copy, Debug)]
pub struct Source<'a, F> {
    pub model_path: &'a str,
    pub file_image: Option<&'a [u8]>,
    pub mapped_files: Option<&'a [F]>,
}

/// A source names something to read: a path, a non-empty image or at least one mapped file.
pub open spec fn source_present<F>(source: Source<'_, F>) -> bool {
    ||| source.model_path@.len() > 0
    ||| (source.file_image matches Some(bytes) && bytes@.len() > 0)
    ||| (source.mapped_files matches Some(files) && files@.len() > 0)
}

impl<'a, F> Source<'a, F> {
    /// A source of a path and an optional file image, without mapped files.
    pub fn new(model_path: &'a str, file_image: Option<&'a [u8]>) -> (source: Self)
        ensures
            source.model_path == model_path,
            source.file_image == file_image,
            source.mapped_files is None,
    {
        Source { model_path, file_image, mapped_files: None }
    }

    /// The same source with the caller's mapped files added.
    pub fn with_mapped_files(self, files: &'a [F]) -> (source: Self)
        ensures
            source.model_path == self.model_path,
            source.file_image == self.file_image,
            source.mapped_files == Some(files),
    {
        Source { model_path: self.model_path, file_image: self.file_image, mapped_files: Some(files) }
    }

    pub fn mapped_files(&self) -> (files: Option<&'a [F]>)
        ensures
            files == self.mapped_files,
    {
        self.mapped_files
    }

    pub fn model_path(&self) -> (path: &'a str)
        ensures
            path == self.model_path,
    {
        self.model_path
    }

    pub fn file_image(&self) -> (image: Option<&'a [u8]>)
        ensures
            image == self.file_image,
    {
        self.file_image
    }

    /// Whether the source names anything to read.
    pub fn is_present(&self) -> (present: bool)
        ensures
            present == source_present(*self),
    {
        if !self.model_path.is_empty() {
            return true;
        }
        let image_present = match self.file_image {
            Some(bytes) => bytes.len() > 0,
            None => false,
        };
        if image_present {
            return true;
        }
        match self.mapped_files {
            Some(files) => files.len() > 0,
            None => false,
        }
    }
}

} // verus!
