//! A self-contained candidate source: draws its key from the thread-local
//! random number generator and always yields the compressed legacy address.

use vstd::prelude::*;
use vstd::pervasive::unreached;

use crate::address::{assemble, generate_secret_key, has_public_key_hex_len, prefix_matches, signing_context};
use crate::text::str_has_prefix;

verus! {

/// One generated key pair with its compressed legacy address, in textual
/// form.
pub struct AddressResource {
    pub private_key: String,
    pub public_key: String,
    pub address: String,
}

impl AddressResource {
    /// Generates a fresh key pair and encodes its compressed legacy
    /// address. The generator draws keys until one is valid, so this
    /// constructor has no failure case.
    pub fn new() -> (r: AddressResource)
        ensures
            has_public_key_hex_len(r.public_key@),
    {
        let secp = signing_context();
        let sk = generate_secret_key(&secp);
        match assemble(&secp, &sk, true, false) {
            Ok(a) => AddressResource {
                private_key: a.private_key,
                public_key: a.public_key,
                address: a.address,
            },
            Err(_) => unreached(),
        }
    }

    /// Whether this candidate's address starts with `starts_with`,
    /// compared case-sensitively.
    pub fn address_starts_with(&self, starts_with: &str) -> (r: bool)
        ensures
            r == prefix_matches(self.address@, starts_with@, true),
    {
        str_has_prefix(self.address.as_str(), starts_with)
    }
}

} // verus!
