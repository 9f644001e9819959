use core::str::FromStr;

use ligate_node::bech32m_encoded::{
    lba_hrp, lblk_hrp, lbz_hrp, lsch_hrp, lsr_hrp, ltx_hrp, DeserializeHashError, LbaHash,
    LblkHash, LbzHash, LschHash, LsrHash, LtxHash, SerializedHash,
};
use ligate_node::common::HexString;
use ligate_node::text_codec::{
    accept_bech32, accept_hex, decode_text, encode_text, to_array, HexError, ParseHashError,
};

#[test]
fn ltx_round_trip() {
    let bytes = [0xab; 32];
    let h = LtxHash::new(bytes);
    let s = h.to_string();
    assert!(s.starts_with("ltx1"), "got {s}");
    let parsed: LtxHash = s.parse().unwrap();
    assert_eq!(parsed, h);
}

#[test]
fn lblk_round_trip() {
    let bytes = [0xcd; 32];
    let h = LblkHash::new(bytes);
    let s = h.to_string();
    assert!(s.starts_with("lblk1"), "got {s}");
    let parsed: LblkHash = s.parse().unwrap();
    assert_eq!(parsed, h);
}

#[test]
fn lsr_round_trip() {
    let bytes = [0xef; 64];
    let h = LsrHash::new(bytes);
    let s = h.to_string();
    assert!(s.starts_with("lsr1"), "got {s}");
    let parsed: LsrHash = s.parse().unwrap();
    assert_eq!(parsed, h);
}

#[test]
fn ltx_accepts_hex_backcompat_input() {
    let bytes = [0x42; 32];
    let hex_form = format!("0x{}", hex::encode(bytes));
    let parsed: LtxHash = hex_form.parse().unwrap();
    assert_eq!(parsed.0, bytes);
}

#[test]
fn ltx_rejects_wrong_hrp() {
    let lblk_form = LblkHash::new([0x99; 32]).to_string();
    let result: Result<LtxHash, _> = lblk_form.parse();
    assert!(result.is_err());
}

#[test]
fn ltx_borsh_layout_matches_underlying_bytes() {
    let bytes = [0x77; 32];
    let h = LtxHash::new(bytes);
    let serialised = h.to_borsh();
    assert_eq!(serialised, bytes.to_vec());
    assert_eq!(serialised, borsh::to_vec(&bytes).unwrap());
}

#[test]
fn ltx_json_round_trip() {
    let bytes = [0x21; 32];
    let h = LtxHash::new(bytes);
    let text = match h.serialized(true) {
        SerializedHash::Text(text) => text,
        SerializedHash::Bytes(_) => panic!("JSON is human-readable"),
    };
    let json = serde_json::to_string(&text).unwrap();
    assert!(json.starts_with("\"ltx1"));
    let back: String = serde_json::from_str(&json).unwrap();
    let back = LtxHash::deserialized(SerializedHash::Text(back)).unwrap();
    assert_eq!(back, h);
}

#[test]
fn hexhash_to_ltx_round_trip() {
    let bytes = [0x11; 32];
    let hx = HexString::new(bytes);
    let lx: LtxHash = hx.clone().into();
    assert_eq!(lx.0, bytes);
    let back: HexString<[u8; 32]> = lx.into();
    assert_eq!(back.0, bytes);
}

#[test]
fn texts_are_bech32m() {
    assert_eq!(
        LtxHash::new([0; 32]).to_string(),
        "ltx1qqqqqqqqqqqqqqqqqqqqqqqqqqqqqqqqqqqqqqqqqqqqqqqqqqqq40arht"
    );
    assert_eq!(
        LtxHash::new([0xab; 32]).to_string(),
        "ltx14w46h2at4w46h2at4w46h2at4w46h2at4w46h2at4w46h2at4w4s0xmn8z"
    );
    assert_eq!(
        LblkHash::new([0xcd; 32]).to_string(),
        "lblk1ehxumnwdehxumnwdehxumnwdehxumnwdehxumnwdehxumnwdehxs6gheeu"
    );
    assert_eq!(
        LsrHash::new([0xef; 64]).to_string(),
        "lsr1alh7lml0alh7lml0alh7lml0alh7lml0alh7lml0alh7lml0alh7lml0alh7lml0alh7lml0alh7lml0alh7lml0alh7lml0alh7lmc5a087j"
    );
    assert_eq!(
        LbaHash::new([0; 32]).to_string(),
        "lba1qqqqqqqqqqqqqqqqqqqqqqqqqqqqqqqqqqqqqqqqqqqqqqqqqqqqw9qx2c"
    );
    assert_eq!(
        LschHash::new([0; 32]).to_string(),
        "lsch1qqqqqqqqqqqqqqqqqqqqqqqqqqqqqqqqqqqqqqqqqqqqqqqqqqqqccxn4a"
    );
    assert_eq!(
        LbzHash::new([0; 32]).to_string(),
        "lbz1qqqqqqqqqqqqqqqqqqqqqqqqqqqqqqqqqqqqqqqqqqqqqqqqqqqq5xw20e"
    );
}

#[test]
fn remaining_kinds_round_trip() {
    let batch = LbaHash::new([0x31; 32]);
    assert_eq!(LbaHash::from_str(&batch.to_string()), Ok(batch));
    let chain = LschHash::new([0x32; 32]);
    assert_eq!(LschHash::from_str(&chain.to_string()), Ok(chain));
    let blob = LbzHash::new([0x33; 32]);
    assert_eq!(LbzHash::from_str(&blob.to_string()), Ok(blob));
}

#[test]
fn hrps_are_distinct() {
    let hrps = [ltx_hrp(), lblk_hrp(), lsr_hrp(), lba_hrp(), lsch_hrp(), lbz_hrp()];
    assert_eq!(hrps, ["ltx", "lblk", "lsr", "lba", "lsch", "lbz"]);
}

#[test]
fn wrong_hrp_names_both_parts() {
    let text = LblkHash::new([0x99; 32]).to_string();
    let err = LtxHash::from_str(&text).unwrap_err();
    assert_eq!(
        err,
        ParseHashError::WrongHrp { expected: "ltx", actual: "lblk".to_string() }
    );
    assert_eq!(err.message().unwrap(), "expected HRP 'ltx', got 'lblk'");
}

#[test]
fn upper_case_hrp_is_another_hrp() {
    let text = LtxHash::new([7; 32]).to_string().to_uppercase();
    assert_eq!(
        LtxHash::from_str(&text),
        Err(ParseHashError::WrongHrp { expected: "ltx", actual: "LTX".to_string() })
    );
}

#[test]
fn older_checksum_is_accepted() {
    let text = "ltx1qqqqqqqqqqqqqqqqqqqqqqqqqqqqqqqqqqqqqqqqqqqqqqqqqqqqqnd0jf";
    assert_eq!(LtxHash::from_str(text), Ok(LtxHash::new([0; 32])));
}

#[test]
fn wrong_length_is_refused() {
    let text = "ltx1qyqszqgpqyqszqgpqyqszqgpqyqszqgpqyqszqgpqyqszqgpqygm7v3x";
    let err = LtxHash::from_str(text).unwrap_err();
    assert_eq!(err, ParseHashError::WrongLength { hash_name: "LtxHash" });
    assert_eq!(
        err.message().unwrap(),
        "decoded bytes have wrong length for LtxHash"
    );
    assert_eq!(
        LsrHash::from_str(&format!("0x{}", hex::encode([1u8; 32]))),
        Err(ParseHashError::WrongLength { hash_name: "LsrHash" })
    );
}

#[test]
fn broken_bech32_is_refused() {
    for text in ["", "ltx", "ltx1", "ltx1qqqqqq", "1qqqqqqqq"] {
        let err = LtxHash::from_str(text).unwrap_err();
        assert!(matches!(err, ParseHashError::Bech32(_)));
        assert!(err.message().is_none());
    }
    let mut text = LtxHash::new([5; 32]).to_string();
    text.pop();
    assert!(matches!(LtxHash::from_str(&text), Err(ParseHashError::Bech32(_))));
}

#[test]
fn decoder_error_is_the_one_of_the_text() {
    for text in ["ltx", "ltx1", "l\u{e9}x1qqqqqq", "ltx1bbbbbbb", "ltx1qqqqqqqqq"] {
        let cause = bech32::decode(text).unwrap_err();
        assert_eq!(
            LtxHash::from_str(text),
            Err(ParseHashError::Bech32(cause.clone()))
        );
        assert_eq!(
            LsrHash::deserialized(SerializedHash::Text(text.to_string())),
            Err(DeserializeHashError::Text(ParseHashError::Bech32(cause)))
        );
    }
}

#[test]
fn hashes_are_shown_as_their_text() {
    let h = LtxHash::new([0; 32]);
    let text = "ltx1qqqqqqqqqqqqqqqqqqqqqqqqqqqqqqqqqqqqqqqqqqqqqqqqqqqq40arht";
    assert_eq!(format!("{h}"), text);
    assert_eq!(format!("{h:?}"), text);
    let lblk = LblkHash::new([0xcd; 32]);
    assert_eq!(format!("{lblk:?} {lblk}"), format!("{0} {0}", lblk.to_string()));
    let lsr = LsrHash::new([0xef; 64]);
    assert_eq!(format!("{lsr:?} {lsr}"), format!("{0} {0}", lsr.to_string()));
    let lba = LbaHash::new([1; 32]);
    assert_eq!(format!("{lba:?} {lba}"), format!("{0} {0}", lba.to_string()));
    let lsch = LschHash::new([2; 32]);
    assert_eq!(format!("{lsch:?} {lsch}"), format!("{0} {0}", lsch.to_string()));
    let lbz = LbzHash::new([3; 32]);
    assert_eq!(format!("{lbz:?} {lbz}"), format!("{0} {0}", lbz.to_string()));
}

#[test]
fn hex_is_read_in_any_case() {
    let bytes: [u8; 32] = core::array::from_fn(|i| (i * 8 + 3) as u8);
    for digits in [hex::encode(bytes), hex::encode_upper(bytes)] {
        for prefix in ["0x", "0X"] {
            assert_eq!(
                LtxHash::from_str(&format!("{prefix}{digits}")),
                Ok(LtxHash::new(bytes))
            );
        }
    }
}

#[test]
fn broken_hex_is_refused() {
    assert_eq!(
        LtxHash::from_str("0x123"),
        Err(ParseHashError::Hex(HexError::OddLength))
    );
    assert_eq!(
        LtxHash::from_str("0x12gh"),
        Err(ParseHashError::Hex(HexError::InvalidHexCharacter { c: 'g', index: 2 }))
    );
    // Two bytes of one character: the first of them counts.
    assert_eq!(
        LtxHash::from_str("0xa\u{e9}0"),
        Err(ParseHashError::Hex(HexError::InvalidHexCharacter { c: '\u{c3}', index: 1 }))
    );
    assert_eq!(
        LtxHash::from_str("0x"),
        Err(ParseHashError::WrongLength { hash_name: "LtxHash" })
    );
    assert!(ParseHashError::Hex(HexError::OddLength).message().is_none());
}

#[test]
fn decoded_parts_are_judged() {
    let good: Result<[u8; 2], _> = accept_bech32(Ok(("ltx".to_string(), vec![1, 2])), "ltx", "Pair");
    assert_eq!(good, Ok([1, 2]));
    let hrp: Result<[u8; 2], _> = accept_bech32(Ok(("lsr".to_string(), vec![1, 2])), "ltx", "Pair");
    assert_eq!(
        hrp,
        Err(ParseHashError::WrongHrp { expected: "ltx", actual: "lsr".to_string() })
    );
    let short: Result<[u8; 2], _> = accept_bech32(Ok(("ltx".to_string(), vec![1])), "ltx", "Pair");
    assert_eq!(short, Err(ParseHashError::WrongLength { hash_name: "Pair" }));
    let cause = bech32::decode("ltx").unwrap_err();
    let broken: Result<[u8; 2], _> = accept_bech32(Err(cause.clone()), "ltx", "Pair");
    assert_eq!(broken, Err(ParseHashError::Bech32(cause)));
    assert_eq!(accept_hex::<1>(Ok(vec![9]), "Byte"), Ok([9]));
    assert_eq!(
        accept_hex::<1>(Err(HexError::OddLength), "Byte"),
        Err(ParseHashError::Hex(HexError::OddLength))
    );
}

#[test]
fn text_codec_works_for_any_length() {
    let text = encode_text(&[], "abc");
    assert_eq!(text.len(), 10);
    assert_eq!(decode_text::<0>(&text, "abc", "Empty"), Ok([]));
    assert_eq!(to_array::<3>(&[1, 2, 3]), Some([1, 2, 3]));
    assert_eq!(to_array::<3>(&[1, 2]), None);
}

#[test]
fn serialized_forms_round_trip() {
    let h = LsrHash::new(core::array::from_fn(|i| i as u8));
    assert_eq!(h.serialized(true), SerializedHash::Text(h.to_string()));
    assert_eq!(h.serialized(false), SerializedHash::Bytes((0..64).collect()));
    for human_readable in [true, false] {
        assert_eq!(LsrHash::deserialized(h.serialized(human_readable)), Ok(h));
    }
    assert_eq!(
        LsrHash::deserialized(SerializedHash::Bytes(vec![0; 63])),
        Err(DeserializeHashError::InvalidByteLength)
    );
    assert_eq!(
        LsrHash::deserialized(SerializedHash::Text("0x0".to_string())),
        Err(DeserializeHashError::Text(ParseHashError::Hex(HexError::OddLength)))
    );
}

#[test]
fn borsh_form_is_read_from_the_front() {
    let h = LblkHash::new(core::array::from_fn(|i| 200 - i as u8));
    let mut input = h.to_borsh();
    input.extend([1, 2, 3]);
    assert_eq!(LblkHash::from_borsh(&input), Some((h, &[1u8, 2, 3][..])));
    assert_eq!(LblkHash::from_borsh(&input[..31]), None);
}

#[test]
fn conversions_keep_the_bytes() {
    let bytes: [u8; 32] = core::array::from_fn(|i| i as u8);
    let h = LtxHash::from(bytes);
    assert_eq!(h.as_ref(), &bytes[..]);
    assert_eq!(<[u8; 32]>::from(h), bytes);
    assert!(LtxHash::new([1; 32]) < LtxHash::new([2; 32]));
}

#[test]
fn schemas_describe_the_text() {
    assert_eq!(LtxHash::schema_name(), "LtxHash");
    assert_eq!(
        LtxHash::schema_pattern(),
        "^ltx1[023456789acdefghjklmnpqrstuvwxyz]+$"
    );
    assert_eq!(
        LtxHash::schema_description(),
        "Bech32m-encoded 32-byte value with HRP 'ltx'."
    );
    assert_eq!(
        LsrHash::schema_description(),
        "Bech32m-encoded 64-byte value with HRP 'lsr'."
    );
    let text = LtxHash::new([0x5a; 32]).to_string();
    assert_eq!(text.len(), 62);
    assert!(text[4..]
        .chars()
        .all(|c| "023456789acdefghjklmnpqrstuvwxyz".contains(c)));
}

#[test]
fn different_hashes_print_differently() {
    let mut texts = vec![
        LtxHash::new([0; 32]).to_string(),
        LtxHash::new([1; 32]).to_string(),
        LblkHash::new([0; 32]).to_string(),
        LsrHash::new([0; 64]).to_string(),
        LbaHash::new([0; 32]).to_string(),
        LschHash::new([0; 32]).to_string(),
        LbzHash::new([0; 32]).to_string(),
    ];
    texts.sort();
    texts.dedup();
    assert_eq!(texts.len(), 7);
}
