//! Candidate key material and its textual address forms.
//!
//! Key-pair generation and address encoding are external capabilities: each
//! call into the `secp256k1`, `bitcoin` and `getrandom` crates stands behind
//! a trusted item, and everything downstream works on the plain strings they
//! return.

use vstd::prelude::*;

use crate::VanityError;
use crate::text::{lower_of, lowercase, str_has_prefix};

verus! {

/// An elliptic-curve context capable of signing-related operations.
/// Opaque to the verifier; built by [`signing_context`].
#[verifier::external_body]
pub struct SigningContext {
    ctx: secp256k1::Secp256k1<secp256k1::All>,
}

#[verifier::external_type_specification]
#[verifier::external_body]
pub struct ExSecretKey(secp256k1::SecretKey);

#[verifier::external_type_specification]
#[verifier::external_body]
pub struct ExSecpError(secp256k1::Error);

#[verifier::external_type_specification]
#[verifier::external_body]
pub struct ExPrivateKey(bitcoin::util::key::PrivateKey);

#[verifier::external_type_specification]
#[verifier::external_body]
pub struct ExPublicKey(bitcoin::util::key::PublicKey);

#[verifier::external_type_specification]
#[verifier::external_body]
pub struct ExAddress(bitcoin::util::address::Address);

#[verifier::external_type_specification]
#[verifier::external_body]
pub struct ExAddressError(bitcoin::util::address::Error);

#[verifier::external_type_specification]
#[verifier::external_body]
pub struct ExGetrandomError(getrandom::Error);

/// Relies on `secp256k1::Secp256k1::new`: builds a context capable of
/// signing-related operations, which key derivation below needs.
#[verifier::external_body]
pub fn signing_context() -> SigningContext {
    SigningContext { ctx: secp256k1::Secp256k1::new() }
}

/// Relies on `getrandom::getrandom`: on success the whole 32-byte buffer is
/// filled from the operating system's entropy source. Nothing is promised of
/// the bytes themselves.
#[verifier::external_body]
pub fn get_random_bytes() -> (r: Result<Vec<u8>, getrandom::Error>)
    ensures
        r matches Ok(b) ==> b@.len() == 32,
{
    let mut buf = vec![0u8; 32];
    match getrandom::getrandom(buf.as_mut_slice()) {
        Ok(()) => Ok(buf),
        Err(e) => Err(e),
    }
}

/// Relies on `secp256k1::SecretKey::from_slice`: a slice whose length is not
/// 32 is always rejected; a 32-byte slice is rejected only when it is not a
/// valid key for the curve.
pub assume_specification[ secp256k1::SecretKey::from_slice ](
    data: &[u8],
) -> (r: Result<secp256k1::SecretKey, secp256k1::Error>)
    ensures
        data@.len() != 32 ==> r is Err,
;

/// Relies on `secp256k1::Secp256k1::generate_keypair` with
/// `secp256k1::rand::thread_rng`: yields a fresh, always valid secret key.
/// Nothing is promised of its value.
#[verifier::external_body]
pub fn generate_secret_key(secp: &SigningContext) -> secp256k1::SecretKey {
    secp.ctx.generate_keypair(&mut secp256k1::rand::thread_rng()).0
}

/// Relies on the public fields of `bitcoin::util::key::PrivateKey`: wraps a
/// secret key for the main Bitcoin network with the given compression flag.
#[verifier::external_body]
fn make_private_key(compressed: bool, sk: &secp256k1::SecretKey) -> bitcoin::util::key::PrivateKey {
    bitcoin::util::key::PrivateKey {
        compressed,
        network: bitcoin::network::constants::Network::Bitcoin,
        inner: *sk,
    }
}

/// Relies on `bitcoin::util::key::PublicKey::from_private_key`: derives the
/// public key that belongs to the private key, keeping its compression flag.
#[verifier::external_body]
fn derive_public_key(
    secp: &SigningContext,
    pk: &bitcoin::util::key::PrivateKey,
) -> bitcoin::util::key::PublicKey {
    bitcoin::util::key::PublicKey::from_private_key(&secp.ctx, pk)
}

/// Relies on `bitcoin::util::address::Address::p2pkh`: encodes a legacy
/// pay-to-public-key-hash address; it has no failure case.
#[verifier::external_body]
fn p2pkh_address(pk: &bitcoin::util::key::PublicKey) -> bitcoin::util::address::Address {
    bitcoin::util::address::Address::p2pkh(pk, bitcoin::network::constants::Network::Bitcoin)
}

/// Relies on `bitcoin::util::address::Address::p2wpkh`: encodes a segwit
/// address, failing only for an uncompressed public key.
#[verifier::external_body]
fn p2wpkh_address(
    pk: &bitcoin::util::key::PublicKey,
) -> Result<bitcoin::util::address::Address, bitcoin::util::address::Error> {
    bitcoin::util::address::Address::p2wpkh(pk, bitcoin::network::constants::Network::Bitcoin)
}

/// Relies on the `Display` impl of `bitcoin::util::key::PrivateKey`: renders
/// the key in wallet-import format.
#[verifier::external_body]
fn private_key_wif(pk: &bitcoin::util::key::PrivateKey) -> String {
    pk.to_string()
}

/// The two lengths a hex-rendered public key can have: two digits for
/// each byte of the 33-byte compressed or 65-byte uncompressed point
/// encoding.
pub open spec fn has_public_key_hex_len(s: Seq<char>) -> bool {
    s.len() == 66 || s.len() == 130
}

/// Relies on the `Display` impl of `bitcoin::util::key::PublicKey`: two
/// lowercase hexadecimal digits per byte of the 33-byte compressed or
/// 65-byte uncompressed point encoding.
#[verifier::external_body]
fn public_key_hex(pk: &bitcoin::util::key::PublicKey) -> (r: String)
    ensures
        has_public_key_hex_len(r@),
{
    pk.to_string()
}

/// Relies on the `Display` impl of `bitcoin::util::address::Address`:
/// renders the address in its canonical textual form.
#[verifier::external_body]
fn address_string(a: &bitcoin::util::address::Address) -> String {
    a.to_string()
}

/// One generated key pair with its derived address, all in textual form:
/// the private key in wallet-import format, the public key in hexadecimal,
/// and the address as it would be published.
pub struct BitcoinAddress {
    pub private_key: String,
    pub public_key: String,
    pub address: String,
}

/// Whether `target`, normalized per `case_sensitive`, is a prefix of the
/// equally normalized `addr`.
pub open spec fn prefix_matches(addr: Seq<char>, target: Seq<char>, case_sensitive: bool) -> bool {
    if case_sensitive {
        target.is_prefix_of(addr)
    } else {
        lower_of(target).is_prefix_of(lower_of(addr))
    }
}

/// Whether some target in `targets` matches `addr` under `case_sensitive`.
pub open spec fn matches_any(addr: Seq<char>, targets: Seq<String>, case_sensitive: bool) -> bool {
    exists|i: int| 0 <= i < targets.len() && prefix_matches(addr, targets[i]@, case_sensitive)
}

impl BitcoinAddress {
    /// Generates a fresh key pair from the entropy source and encodes its
    /// address: segwit when `is_bech32` is set, legacy otherwise. Fails when
    /// the entropy source fails, when the drawn bytes are not a valid key,
    /// or when a segwit address is requested for an uncompressed key.
    pub fn new(
        secp: &SigningContext,
        is_compressed: bool,
        is_bech32: bool,
    ) -> (r: Result<BitcoinAddress, VanityError>)
        ensures
            r matches Ok(a) ==> has_public_key_hex_len(a.public_key@),
            r matches Err(e) ==> (e is Entropy || e is InvalidSecretKey || (e is AddressEncoding
                && is_bech32)),
    {
        let bytes = match get_random_bytes() {
            Ok(b) => b,
            Err(_) => {
                return Err(VanityError::Entropy);
            },
        };
        let sk = match secp256k1::SecretKey::from_slice(bytes.as_slice()) {
            Ok(k) => k,
            Err(_) => {
                return Err(VanityError::InvalidSecretKey);
            },
        };
        assemble(secp, &sk, is_compressed, is_bech32)
    }

    /// Whether this candidate's address starts with `prefix`, compared
    /// case-sensitively or over the lowercased forms.
    pub fn starts_with(&self, prefix: &str, is_case_sensitive: bool) -> (r: bool)
        ensures
            r == prefix_matches(self.address@, prefix@, is_case_sensitive),
    {
        if is_case_sensitive {
            str_has_prefix(self.address.as_str(), prefix)
        } else {
            let addr = lowercase(self.address.as_str());
            let target = lowercase(prefix);
            str_has_prefix(addr.as_str(), target.as_str())
        }
    }

    /// Whether any prefix in `prefixes` matches this candidate's address.
    pub fn starts_with_any(&self, prefixes: &[String], is_case_sensitive: bool) -> (r: bool)
        ensures
            r == matches_any(self.address@, prefixes@, is_case_sensitive),
    {
        let n = prefixes.len();
        let mut i: usize = 0;
        while i < n
            invariant
                i <= n,
                n == prefixes@.len(),
                forall|j: int|
                    0 <= j < i ==> !prefix_matches(
                        self.address@,
                        prefixes@[j]@,
                        is_case_sensitive,
                    ),
            decreases n - i,
        {
            let p = &prefixes[i];
            if self.starts_with(p.as_str(), is_case_sensitive) {
                return true;
            }
            i = i + 1;
        }
        false
    }
}

/// Builds the textual forms for one already-validated secret key.
pub(crate) fn assemble(
    secp: &SigningContext,
    sk: &secp256k1::SecretKey,
    is_compressed: bool,
    is_bech32: bool,
) -> (r: Result<BitcoinAddress, VanityError>)
    ensures
        !is_bech32 ==> r is Ok,
        r matches Ok(a) ==> has_public_key_hex_len(a.public_key@),
        r matches Err(e) ==> e is AddressEncoding,
{
    let private_key = make_private_key(is_compressed, sk);
    let public_key = derive_public_key(secp, &private_key);
    let address = if is_bech32 {
        match p2wpkh_address(&public_key) {
            Ok(a) => a,
            Err(_) => {
                return Err(VanityError::AddressEncoding);
            },
        }
    } else {
        p2pkh_address(&public_key)
    };
    Ok(
        BitcoinAddress {
            private_key: private_key_wif(&private_key),
            public_key: public_key_hex(&public_key),
            address: address_string(&address),
        },
    )
}

/// A paired candidate: the compressed and the uncompressed legacy address
/// derived from the same secret material.
pub struct Couple {
    pub compressed: BitcoinAddress,
    pub uncompressed: BitcoinAddress,
}

impl Couple {
    /// Generates one secret key and encodes both its legacy address
    /// variants. Fails only when the entropy source fails or the drawn
    /// bytes are not a valid key.
    pub fn new(secp: &SigningContext) -> (r: Result<Couple, VanityError>)
        ensures
            r matches Ok(c) ==> has_public_key_hex_len(c.compressed.public_key@)
                && has_public_key_hex_len(c.uncompressed.public_key@),
            r matches Err(e) ==> (e is Entropy || e is InvalidSecretKey),
    {
        let bytes = match get_random_bytes() {
            Ok(b) => b,
            Err(_) => {
                return Err(VanityError::Entropy);
            },
        };
        let sk = match secp256k1::SecretKey::from_slice(bytes.as_slice()) {
            Ok(k) => k,
            Err(_) => {
                return Err(VanityError::InvalidSecretKey);
            },
        };
        let compressed = match assemble(secp, &sk, true, false) {
            Ok(a) => a,
            Err(_) => {
                return Err(VanityError::InvalidSecretKey);
            },
        };
        let uncompressed = match assemble(secp, &sk, false, false) {
            Ok(a) => a,
            Err(_) => {
                return Err(VanityError::InvalidSecretKey);
            },
        };
        Ok(Couple { compressed, uncompressed })
    }
}

} // verus!
