//! Monotonic two-part version stamp.
//!
//! A stamp pairs an instance id (a random 128-bit value marking one
//! unbroken monotonic run) with a sequence id (a time-ordered 128-bit
//! value). Within one instance id, successive increments produce strictly
//! increasing sequence ids; when the clock source hands back a value that
//! does not exceed the previous one, a fresh instance id is minted instead
//! of producing an ambiguous ordering.

use crate::encoding::{base32hex_of, encode_u128};
use vstd::prelude::*;

verus! {

/// Relies on `uuid::Uuid::new_v4`: a freshly drawn random 128-bit value
/// (with fixed version and variant bits). The result depends on the
/// operating system's randomness, so nothing is promised of it; callers
/// handle every outcome.
#[verifier::external_body]
fn random_id() -> u128 {
    uuid::Uuid::new_v4().as_u128()
}

/// Relies on `uuid7::uuid7`: a time-ordered identifier, read here as the
/// big-endian 128-bit value of its bytes. The result depends on the clock
/// and on process-wide generator state, so nothing is promised of it; a
/// non-advancing value is detected and handled by the caller.
#[verifier::external_body]
fn time_ordered_id() -> u128 {
    u128::from(uuid7::uuid7())
}

/// A version stamp: (instance id, sequence id). Pollers compare stamps to
/// detect "nothing changed since my last check" without re-reading the
/// payload they version.
#[derive(Clone, Debug, PartialOrd, Ord, PartialEq, Eq)]
pub struct UuidST {
    method_uuid: u128,
    data_uuid: u128,
}

impl UuidST {
    /// The instance id, as specifications see it.
    pub closed spec fn spec_method_id(&self) -> u128 {
        self.method_uuid
    }

    /// The sequence id, as specifications see it.
    pub closed spec fn spec_data_id(&self) -> u128 {
        self.data_uuid
    }

    /// Mint a stamp from known identifiers: the injectable form of `new`
    /// for callers that control their own id sources.
    pub fn new_with(method_id: u128, data_id: u128) -> (r: Self)
        ensures
            r.spec_method_id() == method_id,
            r.spec_data_id() == data_id,
    {
        Self { method_uuid: method_id, data_uuid: data_id }
    }

    /// Mint a fresh stamp: a random instance id and an initial
    /// time-ordered sequence id. Both identifiers are drawn from outside
    /// sources, so nothing can be promised of their values.
    pub fn new() -> Self {
        Self { method_uuid: random_id(), data_uuid: time_ordered_id() }
    }

    /// The current (instance id, sequence id) pair. Pure read.
    pub fn get(&self) -> (r: (u128, u128))
        ensures
            r.0 == self.spec_method_id(),
            r.1 == self.spec_data_id(),
    {
        (self.method_uuid, self.data_uuid)
    }

    /// Adopt an externally observed snapshot: both identifiers are copied
    /// from `other`.
    pub fn set(&mut self, other: &Self)
        ensures
            final(self).spec_method_id() == other.spec_method_id(),
            final(self).spec_data_id() == other.spec_data_id(),
    {
        self.method_uuid = other.method_uuid;
        self.data_uuid = other.data_uuid;
    }

    /// One step of the versioning state machine with the drawn identifiers
    /// supplied by the caller: `new_data_id` becomes the sequence id; if it
    /// does not strictly exceed the previous sequence id (the clock source
    /// regressed), `fallback_method_id` first replaces the instance id,
    /// resetting the comparability epoch.
    pub fn increment_with(&mut self, new_data_id: u128, fallback_method_id: u128)
        ensures
            final(self).spec_data_id() == new_data_id,
            new_data_id > old(self).spec_data_id() ==> final(self).spec_method_id()
                == old(self).spec_method_id(),
            new_data_id <= old(self).spec_data_id() ==> final(self).spec_method_id()
                == fallback_method_id,
    {
        if new_data_id <= self.data_uuid {
            self.method_uuid = fallback_method_id;
        }
        self.data_uuid = new_data_id;
    }

    /// Advance the stamp: draw a new time-ordered sequence id and store
    /// it; if it failed to advance past the previous one, mint a fresh
    /// random instance id first. Whatever the sources returned: the
    /// instance id survives exactly when the sequence id strictly grew.
    pub fn increment(&mut self)
        ensures
            final(self).spec_data_id() > old(self).spec_data_id() ==> final(self).spec_method_id()
                == old(self).spec_method_id(),
            final(self).spec_method_id() != old(self).spec_method_id()
                ==> final(self).spec_data_id() <= old(self).spec_data_id(),
    {
        let new_data_id = time_ordered_id();
        if new_data_id <= self.data_uuid {
            self.method_uuid = random_id();
        }
        self.data_uuid = new_data_id;
    }

    /// The instance id in its fixed-length, order-preserving text form.
    pub fn get_method_uuid(&self) -> (r: String)
        ensures
            r@ == encode_u128(self.spec_method_id()),
    {
        base32hex_of(self.method_uuid)
    }

    /// The sequence id in its fixed-length, order-preserving text form.
    pub fn get_data_uuid(&self) -> (r: String)
        ensures
            r@ == encode_u128(self.spec_data_id()),
    {
        base32hex_of(self.data_uuid)
    }
}

impl Default for UuidST {
    /// A fresh stamp, as `new` mints it.
    fn default() -> Self {
        Self::new()
    }
}

} // verus!
