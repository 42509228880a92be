//! Tests of the hex-or-base64 reader, the text helpers, and the record types.

use hal_simplicity_daemon::daemon::types::{
    AddressCreateRequest, JetCall, PsetRunResponse, SimplicitySighashRequest,
};
use hal_simplicity_daemon::text::str_eq;
use hal_simplicity_daemon::{hex_or_base64, GetInfo, Network};

#[test]
fn lower_hex_letters_decode_as_hex() {
    assert_eq!(hex_or_base64("deadbeef").expect("hex"), vec![0xde, 0xad, 0xbe, 0xef]);
    assert_eq!(hex_or_base64("ff").expect("hex"), vec![0xff]);
    assert_eq!(hex_or_base64("").expect("hex"), Vec::<u8>::new());
}

#[test]
fn everything_else_goes_through_base64() {
    // digits are not lower-case letters, so this is read as base64
    assert_eq!(hex_or_base64("aGVsbG8=").expect("base64"), b"hello".to_vec());
    assert_eq!(hex_or_base64("00ff").expect("base64"), vec![0xd3, 0x47, 0xdf]);
    assert!(hex_or_base64("%%%%").is_err());
    // odd length falls through to base64 and fails there
    assert!(hex_or_base64("abc").is_err());
}

#[test]
fn str_eq_is_plain_equality() {
    assert!(str_eq("", ""));
    assert!(str_eq("abc", "abc"));
    assert!(!str_eq("abc", "abd"));
    assert!(!str_eq("abc", "abcd"));
    assert!(str_eq("\u{30c6}", "\u{30c6}"));
}

struct Tagged {
    tag: u32,
}

impl GetInfo<String> for Tagged {
    fn get_info(&self, network: Network) -> String {
        match network {
            Network::Liquid => format!("liquid:{}", self.tag),
            Network::LiquidTestnet => format!("testnet:{}", self.tag),
            Network::ElementsRegtest => format!("regtest:{}", self.tag),
        }
    }
}

#[test]
fn get_info_describes_per_network() {
    let t = Tagged { tag: 7 };
    assert_eq!(t.get_info(Network::Liquid), "liquid:7");
    assert_eq!(t.get_info(Network::ElementsRegtest), "regtest:7");
}

#[test]
fn record_types_hold_their_fields() {
    let req = AddressCreateRequest {
        network: Some(Network::Liquid),
        pubkey: Some("02".to_string()),
        script: None,
        blinder: None,
    };
    assert_eq!(req.network, Some(Network::Liquid));
    let sighash = SimplicitySighashRequest {
        tx: "raw".to_string(),
        input_index: 0,
        cmr: "cmr".to_string(),
        control_block: None,
        genesis_hash: None,
        secret_key: None,
        public_key: None,
        signature: None,
        input_utxos: Some(vec!["utxo".to_string()]),
    };
    assert_eq!(sighash.input_index, 0);
    let run = PsetRunResponse {
        success: true,
        jets: vec![JetCall {
            jet: "add_32".to_string(),
            source_ty: "2^64".to_string(),
            target_ty: "2^33".to_string(),
            success: true,
            input_hex: "00".to_string(),
            output_hex: "01".to_string(),
            equality_check: None,
        }],
    };
    assert!(run.success);
    assert_eq!(run.jets.len(), 1);
}
