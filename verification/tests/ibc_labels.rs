use terraswap::asset::AssetInfo;
use terraswap::collaborators::{AddressCodec, BalanceOracle, TokenInfo};
use terraswap::error::AssetError;
use terraswap::ibc::{get_ibc_token_label, is_ibc_token};

const HASH_64: &str = "4CD525F166D32B0132C095F353F4C6F033B0FF5C49141470D1EFDA1D63303D04";

fn native_label(denom: &str) -> Result<String, AssetError> {
    let codec = AddressCodec {
        canonicalize: |_: &String| -> Result<Vec<u8>, AssetError> { Err(AssetError::Address) },
        humanize: |_: &Vec<u8>| -> Result<String, AssetError> { Err(AssetError::Address) },
        validate: |_: &String| -> Result<String, AssetError> { Err(AssetError::Address) },
    };
    let oracle = BalanceOracle {
        native_balance: |_: &String, _: &String| -> Result<u128, AssetError> { Err(AssetError::Query) },
        token_balance: |_: &String, _: &String| -> Result<u128, AssetError> { Err(AssetError::Query) },
        native_decimals: |_: &String, _: &String| -> Result<u8, AssetError> { Err(AssetError::Query) },
        token_metadata: |_: &String| -> Result<TokenInfo, AssetError> { Err(AssetError::Query) },
    };
    AssetInfo::NativeToken { denom: denom.to_string() }.get_label(&codec, &oracle)
}

#[test]
fn hash_of_64_hex_chars_is_detected() {
    let denom = format!("ibc/{}", HASH_64);
    assert_eq!(HASH_64.len(), 64);
    assert!(is_ibc_token(&denom));
    assert_eq!(get_ibc_token_label(&denom), "ibc/4CD5...3D04");
    assert_eq!(native_label(&denom), Ok("ibc/4CD5...3D04".to_string()));
}

#[test]
fn hash_of_63_chars_is_not_detected() {
    let denom = format!("ibc/{}", &HASH_64[..63]);
    assert!(!is_ibc_token(&denom));
    assert_eq!(native_label(&denom), Ok(denom.clone()));
}

#[test]
fn hash_of_65_chars_is_not_detected() {
    let denom = format!("ibc/{}A", HASH_64);
    assert!(!is_ibc_token(&denom));
    assert_eq!(native_label(&denom), Ok(denom.clone()));
}

#[test]
fn plain_denom_is_not_detected() {
    assert!(!is_ibc_token("uusd"));
    assert_eq!(native_label("uusd"), Ok("uusd".to_string()));
}

#[test]
fn non_alphanumeric_hash_is_not_detected() {
    let denom = format!("ibc/{}-", &HASH_64[..63]);
    assert_eq!(denom.chars().count(), 68);
    assert!(!is_ibc_token(&denom));
    let denom = format!("ibc/{} {}", &HASH_64[..31], &HASH_64[..32]);
    assert!(!is_ibc_token(&denom));
}

#[test]
fn several_separators_are_not_detected() {
    let denom = format!("ibc/{}/{}", &HASH_64[..31], &HASH_64[..32]);
    assert_eq!(denom.chars().count(), 68);
    assert!(!is_ibc_token(&denom));
    let denom = format!("ibc/{}/x", HASH_64);
    assert!(!is_ibc_token(&denom));
}

#[test]
fn empty_hash_is_not_detected() {
    assert!(!is_ibc_token("ibc/"));
    assert!(!is_ibc_token("ibc"));
    assert!(!is_ibc_token(""));
    assert_eq!(native_label("ibc/"), Ok("ibc/".to_string()));
}

#[test]
fn other_prefix_is_not_detected() {
    assert!(!is_ibc_token(&format!("ibd/{}", HASH_64)));
    assert!(!is_ibc_token(&format!("IBC/{}", HASH_64)));
    assert!(!is_ibc_token(&format!("ibc-{}", HASH_64)));
    assert!(!is_ibc_token(&format!("xibc/{}", &HASH_64[..63])));
}

#[test]
fn any_alphanumeric_hash_is_accepted() {
    let lower = format!("ibc/{}", HASH_64.to_lowercase());
    assert!(is_ibc_token(&lower));
    assert_eq!(get_ibc_token_label(&lower), "ibc/4cd5...3d04");
    let not_hex = format!("ibc/{}", "z".repeat(64));
    assert!(is_ibc_token(&not_hex));
    assert_eq!(get_ibc_token_label(&not_hex), "ibc/zzzz...zzzz");
}

#[test]
fn letters_beyond_ascii_count_as_alphanumeric() {
    let denom = format!("ibc/{}{}", "é".repeat(4), "9".repeat(60));
    assert!(is_ibc_token(&denom));
    assert_eq!(get_ibc_token_label(&denom), "ibc/éééé...9999");
}
