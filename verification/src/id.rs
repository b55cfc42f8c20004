//! Widget identities: a non-zero 64-bit value derived by hashing an
//! identity source, optionally chained onto a parent identity.

use std::hash::BuildHasher;
use std::hash::Hash;
use std::hash::Hasher;
use vstd::prelude::*;

verus! {

/// The fixed-key hash of a `u64` that identities are derived from.
pub uninterp spec fn ahash_u64(x: u64) -> u64;

/// The fixed-key hash of a string that identities are derived from.
pub uninterp spec fn ahash_str(s: Seq<char>) -> u64;

/// The fixed-key hash of a parent value followed by a child `u64`.
pub uninterp spec fn ahash_chain_u64(parent: u64, child: u64) -> u64;

/// The fixed-key hash of a parent value followed by a child string.
pub uninterp spec fn ahash_chain_str(parent: u64, child: Seq<char>) -> u64;

/// Calls `ahash::RandomState::with_seeds(1, 2, 3, 4).hash_one(x)`.
///
/// The claim: the result is the value named by `ahash_u64` at `x`. The
/// seeds are fixed, so ahash computes the same value for the same `x`
/// whenever it is called (the value depends on the build's target
/// configuration, which is fixed for a given program).
#[verifier::external_body]
fn hash_u64(x: u64) -> (r: u64)
    ensures
        r == ahash_u64(x),
{
    ahash::RandomState::with_seeds(1, 2, 3, 4).hash_one(x)
}

/// Calls `ahash::RandomState::with_seeds(1, 2, 3, 4).hash_one(s)`.
///
/// The claim: the result is the value named by `ahash_str` at the
/// characters of `s`.
#[verifier::external_body]
fn hash_str(s: &str) -> (r: u64)
    ensures
        r == ahash_str(s@),
{
    ahash::RandomState::with_seeds(1, 2, 3, 4).hash_one(s)
}

/// Hashes `parent` and then `child` with one ahash hasher built from
/// `ahash::RandomState::with_seeds(1, 2, 3, 4)` (`build_hasher`,
/// `write_u64`, `Hash::hash`, `finish`).
///
/// The claim: the result is the value named by `ahash_chain_u64`.
#[verifier::external_body]
fn hash_chain_u64(parent: u64, child: u64) -> (r: u64)
    ensures
        r == ahash_chain_u64(parent, child),
{
    let mut hasher = ahash::RandomState::with_seeds(1, 2, 3, 4).build_hasher();
    hasher.write_u64(parent);
    child.hash(&mut hasher);
    hasher.finish()
}

/// Hashes `parent` and then the string `child` with one ahash hasher
/// built from `ahash::RandomState::with_seeds(1, 2, 3, 4)`.
///
/// The claim: the result is the value named by `ahash_chain_str`.
#[verifier::external_body]
fn hash_chain_str(parent: u64, child: &str) -> (r: u64)
    ensures
        r == ahash_chain_str(parent, child@),
{
    let mut hasher = ahash::RandomState::with_seeds(1, 2, 3, 4).build_hasher();
    hasher.write_u64(parent);
    child.hash(&mut hasher);
    hasher.finish()
}

/// What an identity is derived from: a number (or another identity's
/// value), or a piece of text.
pub enum IdSource {
    Int(u64),
    Text(String),
}

/// The value an identity takes for a given hash: the hash itself, or one
/// when the hash is zero (an identity is never zero).
pub open spec fn value_of_hash(hash: u64) -> u64 {
    if hash == 0 {
        1
    } else {
        hash
    }
}

/// A unique identity of a widget or a `Ui`.
#[derive(Clone, Copy, Debug, PartialEq, Eq, Hash)]
pub struct Id {
    value: u64,
}

impl Id {
    #[verifier::type_invariant]
    spec fn nonzero(self) -> bool {
        self.value != 0
    }

    /// The 64-bit value of this identity.
    pub closed spec fn spec_value(self) -> u64 {
        self.value
    }

    /// The identity that a given hash gives.
    pub open spec fn spec_from_hash(hash: u64) -> Id {
        Id::spec_of_value(value_of_hash(hash))
    }

    /// The identity with a given (non-zero) value.
    pub closed spec fn spec_of_value(value: u64) -> Id {
        Id { value }
    }

    /// The identity derived from a number.
    pub open spec fn spec_new_u64(x: u64) -> Id {
        Id::spec_from_hash(ahash_u64(x))
    }

    /// The identity derived from a piece of text.
    pub open spec fn spec_new_str(s: Seq<char>) -> Id {
        Id::spec_from_hash(ahash_str(s))
    }

    /// The child of this identity derived from a number.
    pub open spec fn spec_with_u64(self, x: u64) -> Id {
        Id::spec_from_hash(ahash_chain_u64(self.spec_value(), x))
    }

    /// The child of this identity derived from a piece of text.
    pub open spec fn spec_with_str(self, s: Seq<char>) -> Id {
        Id::spec_from_hash(ahash_chain_str(self.spec_value(), s))
    }

    /// `Id::new` as a spec function.
    pub open spec fn spec_new(source: IdSource) -> Id {
        match source {
            IdSource::Int(x) => Id::spec_new_u64(x),
            IdSource::Text(s) => Id::spec_new_str(s@),
        }
    }

    /// `Id::with` as a spec function.
    pub open spec fn spec_with(self, source: IdSource) -> Id {
        match source {
            IdSource::Int(x) => self.spec_with_u64(x),
            IdSource::Text(s) => self.spec_with_str(s@),
        }
    }

    /// Values determine identities, and identities are never zero.
    pub broadcast proof fn lemma_value(value: u64)
        requires
            value != 0,
        ensures
            (#[trigger] Id::spec_of_value(value)).spec_value() == value,
    {
    }

    /// An identity is determined by its value.
    pub broadcast proof fn lemma_value_determines(a: Id, b: Id)
        requires
            #[trigger] a.spec_value() == #[trigger] b.spec_value(),
        ensures
            a == b,
    {
    }

    fn from_hash(hash: u64) -> (id: Id)
        ensures
            id == Id::spec_from_hash(hash),
            id.spec_value() == value_of_hash(hash),
    {
        if hash != 0 {
            Id { value: hash }
        } else {
            Id { value: 1 }
        }
    }

    /// Derive an identity from a number.
    pub fn new_u64(x: u64) -> (id: Id)
        ensures
            id == Id::spec_new_u64(x),
    {
        Id::from_hash(hash_u64(x))
    }

    /// Derive an identity from a piece of text.
    pub fn new_str(s: &str) -> (id: Id)
        ensures
            id == Id::spec_new_str(s@),
    {
        Id::from_hash(hash_str(s))
    }

    /// Derive a child of this identity from a number.
    pub fn with_u64(self, x: u64) -> (id: Id)
        ensures
            id == self.spec_with_u64(x),
    {
        Id::from_hash(hash_chain_u64(self.value, x))
    }

    /// Derive a child of this identity from a piece of text.
    pub fn with_str(self, s: &str) -> (id: Id)
        ensures
            id == self.spec_with_str(s@),
    {
        Id::from_hash(hash_chain_str(self.value, s))
    }

    /// Derive an identity from a source.
    pub fn new(source: &IdSource) -> (id: Id)
        ensures
            id == Id::spec_new(*source),
    {
        match source {
            IdSource::Int(x) => Id::new_u64(*x),
            IdSource::Text(s) => Id::new_str(s.as_str()),
        }
    }

    /// Derive a child identity from this identity and a source.
    pub fn with(self, source: &IdSource) -> (id: Id)
        ensures
            id == self.spec_with(*source),
    {
        match source {
            IdSource::Int(x) => self.with_u64(*x),
            IdSource::Text(s) => self.with_str(s.as_str()),
        }
    }

    /// The 64-bit value of this identity; never zero.
    pub fn value(&self) -> (v: u64)
        ensures
            v == self.spec_value(),
            v != 0,
    {
        proof {
            use_type_invariant(self);
        }
        self.value
    }
}

} // verus!
