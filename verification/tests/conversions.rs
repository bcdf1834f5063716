use path2d::conversions::{
    byte_string_from, check_well_formed_utf16, dom_string_from, jsstring_to_str,
    latin1_to_string, try_dom_string_from, try_jsstring_to_str, usv_string_from,
    utf16_to_string_lossy, EngineString, StringificationBehavior,
};

fn samples() -> Vec<Vec<u16>> {
    vec![
        vec![],
        vec![0x61, 0x62, 0x63],
        vec![0x00e9, 0x4e2d, 0xffff, 0x0000],
        // One pair: U+1F600.
        vec![0xd83d, 0xde00],
        vec![0x61, 0xd83d, 0xde00, 0x62],
        // The first and the last code point beyond the first plane.
        vec![0xd800, 0xdc00, 0xdbff, 0xdfff],
        // A high surrogate alone, at the end and before another unit.
        vec![0xd83d],
        vec![0x61, 0xd83d],
        vec![0xd83d, 0x61],
        // A low surrogate alone.
        vec![0xde00],
        vec![0xde00, 0x61],
        // The wrong way round: both stand alone.
        vec![0xde00, 0xd83d],
        // A high surrogate, then a pair.
        vec![0xd83d, 0xd83d, 0xde00],
        // A pair, then a low surrogate.
        vec![0xd83d, 0xde00, 0xde00],
        vec![0xdbff, 0xdbff, 0xdfff, 0xdfff],
        vec![0xd7ff, 0xe000],
    ]
}

#[test]
fn lossy_decoding_is_that_of_the_standard_library() {
    for units in samples() {
        assert_eq!(utf16_to_string_lossy(&units), String::from_utf16_lossy(&units), "{units:x?}");
    }
}

#[test]
fn well_formed_is_what_the_standard_library_decodes() {
    for units in samples() {
        assert_eq!(
            check_well_formed_utf16(&units),
            String::from_utf16(&units).is_ok(),
            "{units:x?}"
        );
    }
}

#[test]
fn pair_is_one_character() {
    assert_eq!(utf16_to_string_lossy(&[0xd83d, 0xde00]), "\u{1F600}");
    assert_eq!(utf16_to_string_lossy(&[0xd800, 0xdc00]), "\u{10000}");
    assert_eq!(utf16_to_string_lossy(&[0xdbff, 0xdfff]), "\u{10FFFF}");
}

#[test]
fn surrogate_without_partner_is_replaced() {
    assert_eq!(utf16_to_string_lossy(&[0x61, 0xd83d, 0x62]), "a\u{FFFD}b");
    assert_eq!(utf16_to_string_lossy(&[0xde00, 0xd83d]), "\u{FFFD}\u{FFFD}");
}

#[test]
fn latin1_bytes_are_code_points() {
    assert_eq!(latin1_to_string(&[]), "");
    assert_eq!(latin1_to_string(&[0x61, 0xe9, 0xff, 0x00, 0x80]), "a\u{e9}\u{ff}\u{0}\u{80}");
    let all: Vec<u8> = (0..=255).collect();
    let expected: String = all.iter().map(|&b| b as char).collect();
    assert_eq!(latin1_to_string(&all), expected);
}

#[test]
fn engine_string_is_decoded_by_its_kind() {
    assert_eq!(jsstring_to_str(&EngineString::Latin1(vec![0xe9]), false), "\u{e9}");
    assert_eq!(jsstring_to_str(&EngineString::TwoByte(vec![0xe9, 0x4e2d]), false), "\u{e9}\u{4e2d}");
    assert_eq!(jsstring_to_str(&EngineString::TwoByte(vec![0xd83d]), true), "\u{FFFD}");
}

#[test]
fn surrogate_without_partner_is_refused_unless_replaced() {
    for units in samples() {
        let sound = String::from_utf16(&units).is_ok();
        let s = EngineString::TwoByte(units.clone());
        assert_eq!(try_jsstring_to_str(&s, true), Some(String::from_utf16_lossy(&units)));
        if sound {
            assert_eq!(try_jsstring_to_str(&s, false), Some(String::from_utf16_lossy(&units)));
        } else {
            assert_eq!(try_jsstring_to_str(&s, false), None);
        }
    }
    assert_eq!(
        try_jsstring_to_str(&EngineString::Latin1(vec![0xd8, 0xdc]), false),
        Some("\u{d8}\u{dc}".to_string())
    );
}

#[test]
fn scalar_value_string_always_replaces() {
    assert_eq!(usv_string_from(&EngineString::TwoByte(vec![0x61, 0xdc00])), "a\u{FFFD}");
    assert_eq!(usv_string_from(&EngineString::TwoByte(vec![0xd83d, 0xde00])), "\u{1F600}");
    assert_eq!(usv_string_from(&EngineString::Latin1(vec![0x61, 0xfc])), "a\u{fc}");
}

#[test]
fn byte_string_takes_code_units_up_to_255() {
    assert_eq!(byte_string_from(&EngineString::Latin1(vec![0, 0x61, 0xff])), Some(vec![0, 0x61, 0xff]));
    assert_eq!(byte_string_from(&EngineString::Latin1(vec![])), Some(vec![]));
    assert_eq!(
        byte_string_from(&EngineString::TwoByte(vec![0, 0x61, 0xff])),
        Some(vec![0, 0x61, 0xff])
    );
    assert_eq!(byte_string_from(&EngineString::TwoByte(vec![])), Some(vec![]));
    assert_eq!(byte_string_from(&EngineString::TwoByte(vec![0x100])), None);
    assert_eq!(byte_string_from(&EngineString::TwoByte(vec![0x61, 0xff, 0x4e2d, 0x62])), None);
    assert_eq!(byte_string_from(&EngineString::TwoByte(vec![0x61, 0xffff])), None);
}

#[test]
fn null_becomes_the_empty_string_where_asked() {
    let null = EngineString::Latin1(b"null".to_vec());
    assert_eq!(
        dom_string_from(StringificationBehavior::Empty, true, Some(&null), false),
        Ok(String::new())
    );
    assert_eq!(dom_string_from(StringificationBehavior::Empty, true, None, false), Ok(String::new()));
    assert_eq!(
        dom_string_from(StringificationBehavior::Default, true, Some(&null), false),
        Ok("null".to_string())
    );
    assert_eq!(
        dom_string_from(StringificationBehavior::Empty, false, Some(&null), false),
        Ok("null".to_string())
    );
}

#[test]
fn value_without_string_is_an_error() {
    assert_eq!(dom_string_from(StringificationBehavior::Default, false, None, false), Err(()));
    assert_eq!(dom_string_from(StringificationBehavior::Default, true, None, true), Err(()));
    assert_eq!(dom_string_from(StringificationBehavior::Empty, false, None, true), Err(()));
}

#[test]
fn value_with_string_is_decoded() {
    let s = EngineString::TwoByte(vec![0x68, 0xd83d, 0xde00, 0xdc00]);
    assert_eq!(
        dom_string_from(StringificationBehavior::Default, false, Some(&s), true),
        Ok("h\u{1F600}\u{FFFD}".to_string())
    );
}

#[test]
fn value_is_refused_only_where_its_string_is_looked_at() {
    let broken = EngineString::TwoByte(vec![0x68, 0xdc00]);
    assert_eq!(try_dom_string_from(StringificationBehavior::Default, false, Some(&broken), false), None);
    assert_eq!(try_dom_string_from(StringificationBehavior::Empty, false, Some(&broken), false), None);
    assert_eq!(try_dom_string_from(StringificationBehavior::Default, true, Some(&broken), false), None);
    assert_eq!(
        try_dom_string_from(StringificationBehavior::Empty, true, Some(&broken), false),
        Some(Ok(String::new()))
    );
    assert_eq!(
        try_dom_string_from(StringificationBehavior::Default, false, Some(&broken), true),
        Some(Ok("h\u{FFFD}".to_string()))
    );
    assert_eq!(
        try_dom_string_from(StringificationBehavior::Default, false, None, false),
        Some(Err(()))
    );
    let sound = EngineString::Latin1(vec![0x68, 0xdc]);
    assert_eq!(
        try_dom_string_from(StringificationBehavior::Default, false, Some(&sound), false),
        Some(Ok("h\u{dc}".to_string()))
    );
}
