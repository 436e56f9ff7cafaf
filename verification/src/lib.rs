//! A concurrent vanity-address search engine: candidates drawn from an
//! elliptic-curve key generator are matched against a prefix policy, the
//! first match wins, and results flow through a throttled reporter.

use vstd::prelude::*;

pub mod address;
pub mod address_resource;
pub mod output;
pub mod policy;
pub mod print_result;
pub mod records;
pub mod session;
pub mod text;

verus! {

/// Saturating addition on the attempt counter: the count never decreases
/// and stops at the counter's ceiling.
pub open spec fn sat_add(a: u64, b: u64) -> u64 {
    if a + b > u64::MAX {
        u64::MAX
    } else {
        (a + b) as u64
    }
}

/// The errors a search can end with, apart from never finding a match.
#[derive(Clone, Copy, PartialEq, Eq, Structural, Debug)]
pub enum VanityError {
    /// The target prefix set was empty: a configuration error.
    EmptyTargets,
    /// The operating system's entropy source failed.
    Entropy,
    /// The random bytes did not form a valid secret key.
    InvalidSecretKey,
    /// The public key could not be encoded as the requested address kind.
    AddressEncoding,
}

impl VanityError {
    /// A short human-readable description of the error.
    pub fn message(&self) -> (r: &'static str)
        ensures
            self is EmptyTargets ==> r@ == "empty set of target prefixes"@,
            self is Entropy ==> r@ == "entropy source failure"@,
            self is InvalidSecretKey ==> r@ == "invalid secret key"@,
            self is AddressEncoding ==> r@ == "address encoding failure"@,
    {
        match self {
            VanityError::EmptyTargets => "empty set of target prefixes",
            VanityError::Entropy => "entropy source failure",
            VanityError::InvalidSecretKey => "invalid secret key",
            VanityError::AddressEncoding => "address encoding failure",
        }
    }
}

} // verus!

