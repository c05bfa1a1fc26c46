//! Memory-safe core of an OPC UA binding.
//!
//! The native protocol engine represents every value as a tagged memory block
//! described by a runtime type-descriptor table and expects callers to manage
//! allocation, copying, and destruction manually. This crate is the verified
//! model of the layer that makes this safe:
//!
//! - a transparent-wrapper contract ([`DataType`]) stating that a host wrapper
//!   type carries exactly the value of its native counterpart, so that reading
//!   a wrapper back through its view accessors yields the value it was built
//!   from;
//! - an ownership-transfer container ([`ua::server_config::ServerConfig`])
//!   with explicit `Owned`/`Released` states, whose contracts pin down that
//!   native cleanup runs exactly once, and only while ownership has not been
//!   transferred elsewhere;
//! - the default-configuration assembly, one concrete use of the container.
//!
//! The raw-pointer reinterpretation and the calls into the native engine
//! cannot be expressed in verified code; they live in the unverified shell
//! around this crate, which mirrors these types one-for-one and upholds the
//! contracts stated here.

use vstd::prelude::*;

pub mod error;
pub mod ua;

verus! {

/// Transparent wrapper for an OPC UA data type.
///
/// A type implementing this trait stands for a host type that is byte-for-byte
/// identical to one native scalar type of the engine. In this verified model
/// the wrapper holds the host value itself; the unverified shell is where the
/// reinterpretation between wrapper and native representation happens, and it
/// must guarantee that both directions preserve the value. That guarantee is
/// what [`DataType::lemma_transparent`] states: constructing a wrapper from a
/// host value and viewing it back is the identity.
pub trait DataType: Sized {
    /// The host type that matches the wrapped native scalar exactly.
    type Inner;

    /// The wrapper's value, seen as its inner type.
    spec fn inner_view(&self) -> Self::Inner;

    /// The wrapper built from an inner value.
    spec fn spec_from_ref(inner: Self::Inner) -> Self;

    /// Index of this type's descriptor in the engine's type-descriptor table.
    ///
    /// The table is process-wide, read-only, and indexed by a compile-time
    /// type identity; this layer only consumes the index. Each wrapper type is
    /// associated with exactly one descriptor.
    spec fn spec_type_index() -> usize;

    /// Transparency: building a wrapper from an inner value and reading it
    /// back yields that value unchanged.
    proof fn lemma_transparent(inner: Self::Inner)
        ensures
            Self::spec_from_ref(inner).inner_view() == inner,
    ;

    /// Builds the wrapper from a reference to an inner value (a pure bit
    /// copy; no allocation).
    fn from_ref(inner: &Self::Inner) -> (r: Self)
        ensures
            r == Self::spec_from_ref(*inner),
            r.inner_view() == *inner,
    ;

    /// Shared view of the wrapper as its inner type.
    fn as_ref(&self) -> (r: &Self::Inner)
        ensures
            *r == self.inner_view(),
    ;

    /// Exclusive view of the wrapper as its inner type. Writes through the
    /// view are writes to the wrapper: no new ownership is created.
    fn as_mut(&mut self) -> (r: &mut Self::Inner)
        ensures
            *r == old(self).inner_view(),
            final(self).inner_view() == *final(r),
    ;

    /// Index of this type's descriptor in the type-descriptor table.
    fn type_index() -> (i: usize)
        ensures
            i == Self::spec_type_index(),
    ;
}

/// Round-trip law: for every transparent wrapper type, constructing a wrapper
/// from a host value and reading it back through the view accessor yields the
/// original value.
pub proof fn lemma_wrapper_roundtrip<T: DataType>(inner: T::Inner)
    ensures
        T::spec_from_ref(inner).inner_view() == inner,
{
    T::lemma_transparent(inner);
}

} // verus!
