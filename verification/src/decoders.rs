//! The decoder-extension wrapper: the once-only gate a user's decoder
//! builder is run behind.

use vstd::prelude::*;

use crate::object::InterfacePtr;

verus! {

/// A user's decoder builder: given the stream to decode, it builds a
/// decoder or fails. A builder may declare that only one decoder instance
/// of it may exist at a time, and may declare a scheduling priority.
pub trait AudioDecoderBuilder: Sized {
    type Decoder;

    type Error;

    fn only_instance() -> bool;

    fn priority() -> Option<i32>;

    fn create(&self, stream: InterfacePtr) -> Result<Self::Decoder, Self::Error>;
}

/// What one create-decoder call came to.
pub enum CreateDecoderOutcome<D, E> {
    /// Refused without running the builder: one instance already exists,
    /// the builder allows only one, and the caller did not force creation.
    Pending,
    Created(D),
    Failed(E),
}

/// Runs a user's decoder builder for the host, refusing a second instance
/// of a builder that allows only one unless creation is forced.
pub struct AudioDecoderBuilderWrapper<T> {
    inner: T,
    only_instance: bool,
    once_inited: bool,
}

impl<T: AudioDecoderBuilder> AudioDecoderBuilderWrapper<T> {
    /// Whether a decoder has ever been created through this wrapper.
    pub closed spec fn created_once(&self) -> bool {
        self.once_inited
    }

    /// Whether the builder declared, when the wrapper was built, that only
    /// one decoder instance of it may exist.
    pub closed spec fn single_instance(&self) -> bool {
        self.only_instance
    }

    /// A wrapper that has not created anything yet, remembering the
    /// builder's one-instance declaration.
    pub fn new(inner: T) -> (r: AudioDecoderBuilderWrapper<T>)
        ensures
            !r.created_once(),
    {
        AudioDecoderBuilderWrapper { inner, only_instance: T::only_instance(), once_inited: false }
    }

    /// Builds a decoder for `stream`. The call is refused as pending
    /// exactly when a decoder was already created, the builder allows only
    /// one, and `force_create` does not override; otherwise the builder
    /// decides between a decoder and its failure.
    pub fn create_decoder(&mut self, stream: InterfacePtr, force_create: bool) -> (r:
        CreateDecoderOutcome<T::Decoder, T::Error>)
        ensures
            r is Pending <==> (old(self).created_once() && !force_create && old(
                self,
            ).single_instance()),
            r is Pending ==> *final(self) == *old(self),
            r is Created ==> final(self).created_once(),
            r is Failed ==> final(self).created_once() == old(self).created_once(),
            final(self).single_instance() == old(self).single_instance(),
    {
        if self.once_inited && !force_create && self.only_instance {
            return CreateDecoderOutcome::Pending;
        }
        match self.inner.create(stream) {
            Ok(decoder) => {
                self.once_inited = true;
                CreateDecoderOutcome::Created(decoder)
            },
            Err(err) => CreateDecoderOutcome::Failed(err),
        }
    }

    /// The builder's scheduling priority, zero where it declares none.
    pub fn get_priority(&self) -> (r: i32) {
        match T::priority() {
            Some(p) => p,
            None => 0,
        }
    }
}

} // verus!
