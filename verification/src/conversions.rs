//! Conversions from the strings of a script engine.
//!
//! An engine holds a string either as Latin-1, one byte for each character,
//! or as UTF-16 code units, which need not be well formed: a surrogate may
//! stand without its partner.
use vstd::prelude::*;

verus! {

/// What the null value becomes when it is converted to a string.
#[derive(Clone, Copy, Debug, PartialEq, Eq, Structural)]
pub enum StringificationBehavior {
    /// The string `null`.
    Default,
    /// The empty string.
    Empty,
}

/// The contents of an engine's string.
#[derive(Clone, Debug, PartialEq, Eq)]
pub enum EngineString {
    /// One byte for each character: its code point.
    Latin1(Vec<u8>),
    /// UTF-16 code units.
    TwoByte(Vec<u16>),
}

/// The character that stands for what could not be decoded.
pub const REPLACEMENT: u32 = 0xFFFD;

/// The first code unit of a surrogate pair.
pub open spec fn is_high_surrogate(unit: u16) -> bool {
    0xD800 <= unit <= 0xDBFF
}

/// The second code unit of a surrogate pair.
pub open spec fn is_low_surrogate(unit: u16) -> bool {
    0xDC00 <= unit <= 0xDFFF
}

/// Whether a surrogate pair begins at `i`.
pub open spec fn is_pair_at(units: Seq<u16>, i: int) -> bool {
    &&& 0 <= i
    &&& i + 1 < units.len()
    &&& is_high_surrogate(units[i])
    &&& is_low_surrogate(units[i + 1])
}

/// Whether the code unit at `i` is a surrogate that begins no pair; one that
/// ends a pair is not asked about.
pub open spec fn is_unpaired_at(units: Seq<u16>, i: int) -> bool {
    &&& 0 <= i < units.len()
    &&& !is_pair_at(units, i)
    &&& (is_high_surrogate(units[i]) || is_low_surrogate(units[i]))
}

/// The code point that is decoded at `i`: that of the pair that begins
/// there; the replacement for a surrogate without partner; else the code
/// unit itself.
pub open spec fn scalar_at(units: Seq<u16>, i: int) -> int {
    if is_pair_at(units, i) {
        0x10000 + (units[i] - 0xD800) * 0x400 + (units[i + 1] - 0xDC00)
    } else if is_unpaired_at(units, i) {
        REPLACEMENT as int
    } else {
        units[i] as int
    }
}

/// The number of code units that are decoded at `i`.
pub open spec fn width_at(units: Seq<u16>, i: int) -> int {
    if is_pair_at(units, i) {
        2
    } else {
        1
    }
}

/// The characters of the code units from `i` on, with the replacement
/// character for each surrogate without partner.
pub open spec fn decode_utf16_from(units: Seq<u16>, i: int) -> Seq<char>
    decreases units.len() - i,
{
    if 0 <= i < units.len() {
        seq![scalar_at(units, i) as char] + decode_utf16_from(units, i + width_at(units, i))
    } else {
        Seq::empty()
    }
}

/// The characters of UTF-16 code units, lossily decoded.
pub open spec fn decode_utf16(units: Seq<u16>) -> Seq<char> {
    decode_utf16_from(units, 0)
}

/// Whether the code units from `i` on hold no surrogate without partner.
pub open spec fn is_well_formed_from(units: Seq<u16>, i: int) -> bool
    decreases units.len() - i,
{
    if 0 <= i < units.len() {
        !is_unpaired_at(units, i) && is_well_formed_from(units, i + width_at(units, i))
    } else {
        true
    }
}

/// Whether the code units are well-formed UTF-16.
pub open spec fn is_well_formed_utf16(units: Seq<u16>) -> bool {
    is_well_formed_from(units, 0)
}

/// The characters of Latin-1 bytes: each byte is the code point of one.
pub open spec fn decode_latin1(bytes: Seq<u8>) -> Seq<char> {
    Seq::new(bytes.len(), |i: int| bytes[i] as char)
}

/// The characters of an engine's string.
pub open spec fn decode(s: EngineString) -> Seq<char> {
    match s {
        EngineString::Latin1(bytes) => decode_latin1(bytes@),
        EngineString::TwoByte(units) => decode_utf16(units@),
    }
}

/// Whether an engine's string holds no surrogate without partner. A Latin-1
/// string holds none.
pub open spec fn is_well_formed(s: EngineString) -> bool {
    match s {
        EngineString::Latin1(_) => true,
        EngineString::TwoByte(units) => is_well_formed_utf16(units@),
    }
}

/// Whether a code point is one that a character can hold: below
/// `0x110000` and no surrogate.
pub open spec fn is_scalar(code: u32) -> bool {
    code < 0xD800 || (0xDFFF < code && code < 0x110000)
}

/// `char::from_u32`: the character of a code point, and `None` for a number
/// that is no code point of a character.
#[verifier::external_body]
fn char_from_u32(code: u32) -> (r: Option<char>)
    ensures
        r == if is_scalar(code) {
            Some(code as char)
        } else {
            None
        },
{
    char::from_u32(code)
}

/// `String::push`: appends one character.
#[verifier::external_body]
fn push_char(s: &mut String, c: char)
    ensures
        final(s)@ == old(s)@.push(c),
{
    s.push(c)
}

/// Appends the character of a code point.
fn push_scalar(s: &mut String, code: u32)
    requires
        is_scalar(code),
    ensures
        final(s)@ == old(s)@.push(code as char),
{
    push_char(s, char_from_u32(code).unwrap());
}

/// Whether the code units hold no surrogate without partner.
pub fn check_well_formed_utf16(units: &[u16]) -> (r: bool)
    ensures
        r == is_well_formed_utf16(units@),
{
    let mut i: usize = 0;
    while i < units.len()
        invariant
            i <= units@.len(),
            is_well_formed_utf16(units@) == is_well_formed_from(units@, i as int),
        decreases units@.len() - i,
    {
        let unit = units[i];
        if 0xD800 <= unit && unit <= 0xDBFF && i + 1 < units.len() && 0xDC00 <= units[i + 1]
            && units[i + 1] <= 0xDFFF {
            i += 2;
        } else if 0xD800 <= unit && unit <= 0xDFFF {
            return false;
        } else {
            i += 1;
        }
    }
    true
}

/// The string of UTF-16 code units, with the replacement character for
/// each surrogate without partner.
pub fn utf16_to_string_lossy(units: &[u16]) -> (r: String)
    ensures
        r@ == decode_utf16(units@),
{
    let mut s = String::new();
    let mut i: usize = 0;
    while i < units.len()
        invariant
            i <= units@.len(),
            decode_utf16(units@) == s@ + decode_utf16_from(units@, i as int),
        decreases units@.len() - i,
    {
        let unit = units[i];
        let ghost before = s@;
        if 0xD800 <= unit && unit <= 0xDBFF && i + 1 < units.len() && 0xDC00 <= units[i + 1]
            && units[i + 1] <= 0xDFFF {
            let high: u32 = (unit - 0xD800) as u32;
            let low: u32 = (units[i + 1] - 0xDC00) as u32;
            let code: u32 = 0x10000 + high * 0x400 + low;
            push_scalar(&mut s, code);
            proof {
                assert(s@ + decode_utf16_from(units@, i + 2) =~= before + decode_utf16_from(
                    units@,
                    i as int,
                ));
            }
            i += 2;
        } else {
            let code: u32 = if 0xD800 <= unit && unit <= 0xDFFF {
                REPLACEMENT
            } else {
                unit as u32
            };
            push_scalar(&mut s, code);
            proof {
                assert(s@ + decode_utf16_from(units@, i + 1) =~= before + decode_utf16_from(
                    units@,
                    i as int,
                ));
            }
            i += 1;
        }
    }
    s
}

/// The string of Latin-1 bytes.
pub fn latin1_to_string(bytes: &[u8]) -> (r: String)
    ensures
        r@ == decode_latin1(bytes@),
{
    let mut s = String::new();
    let mut i: usize = 0;
    while i < bytes.len()
        invariant
            i <= bytes@.len(),
            s@ == decode_latin1(bytes@.take(i as int)),
        decreases bytes@.len() - i,
    {
        let code: u32 = bytes[i] as u32;
        push_scalar(&mut s, code);
        i += 1;
    }
    s
}

/// The string of an engine's string.
///
/// A surrogate without partner is replaced where `replace_surrogates` is
/// set. Where it is not, the string must hold none: `try_jsstring_to_str`
/// asks first.
pub fn jsstring_to_str(s: &EngineString, replace_surrogates: bool) -> (r: String)
    requires
        replace_surrogates || is_well_formed(*s),
    ensures
        r@ == decode(*s),
{
    match s {
        EngineString::Latin1(bytes) => latin1_to_string(bytes.as_slice()),
        EngineString::TwoByte(units) => utf16_to_string_lossy(units.as_slice()),
    }
}

/// The string of an engine's string, or `None` for a string that holds a
/// surrogate without partner while `replace_surrogates` is not set.
pub fn try_jsstring_to_str(s: &EngineString, replace_surrogates: bool) -> (r: Option<String>)
    ensures
        r is Some <==> replace_surrogates || is_well_formed(*s),
        r is Some ==> r->0@ == decode(*s),
{
    let sound = match s {
        EngineString::Latin1(_) => true,
        EngineString::TwoByte(units) => replace_surrogates || check_well_formed_utf16(
            units.as_slice(),
        ),
    };
    if sound {
        Some(jsstring_to_str(s, replace_surrogates))
    } else {
        None
    }
}

/// The string of an engine's string as a sequence of Unicode scalar values:
/// a surrogate without partner is always replaced.
pub fn usv_string_from(s: &EngineString) -> (r: String)
    ensures
        r@ == decode(*s),
{
    jsstring_to_str(s, true)
}

/// Whether every code unit is a byte.
pub open spec fn is_byte_string(units: Seq<u16>) -> bool {
    forall|i: int| 0 <= i < units.len() ==> (#[trigger] units[i]) <= 0xFF
}

/// The bytes of an engine's string: those of a Latin-1 string; of code
/// units, each as one byte.
pub open spec fn bytes_of(s: EngineString) -> Seq<u8> {
    match s {
        EngineString::Latin1(bytes) => bytes@,
        EngineString::TwoByte(units) => Seq::new(units@.len(), |i: int| units@[i] as u8),
    }
}

/// Whether an engine's string can be taken as bytes: a Latin-1 string can,
/// and code units can where each is a byte.
pub open spec fn has_bytes(s: EngineString) -> bool {
    match s {
        EngineString::Latin1(_) => true,
        EngineString::TwoByte(units) => is_byte_string(units@),
    }
}

/// The bytes of an engine's string, or `None` where a code unit is above
/// `0xFF`.
pub fn byte_string_from(s: &EngineString) -> (r: Option<Vec<u8>>)
    ensures
        r is Some <==> has_bytes(*s),
        r is Some ==> r->0@ == bytes_of(*s),
{
    match s {
        EngineString::Latin1(bytes) => {
            let mut copy: Vec<u8> = Vec::new();
            let mut i: usize = 0;
            while i < bytes.len()
                invariant
                    i <= bytes@.len(),
                    copy@ == bytes@.take(i as int),
                decreases bytes@.len() - i,
            {
                copy.push(bytes[i]);
                i += 1;
            }
            Some(copy)
        },
        EngineString::TwoByte(units) => {
            let mut out: Vec<u8> = Vec::new();
            let mut i: usize = 0;
            while i < units.len()
                invariant
                    i <= units@.len(),
                    out@.len() == i,
                    *s == EngineString::TwoByte(*units),
                    forall|k: int| 0 <= k < i ==> (#[trigger] units@[k]) <= 0xFF,
                    forall|k: int| 0 <= k < i ==> (#[trigger] out@[k]) == units@[k] as u8,
                decreases units@.len() - i,
            {
                let unit = units[i];
                if unit > 0xFF {
                    return None;
                }
                out.push(unit as u8);
                i += 1;
            }
            Some(out)
        },
    }
}

/// Whether the null value is answered with the empty string, without a look
/// at what the engine made of it.
pub open spec fn is_emptied(null_behavior: StringificationBehavior, is_null: bool) -> bool {
    null_behavior == StringificationBehavior::Empty && is_null
}

/// The string of a value. `string` is what the engine made of the value, or
/// `None` where it could make no string of it, which is an error.
///
/// The null value becomes the empty string where `null_behavior` asks for
/// that, and the engine's string is then not looked at. A string that is
/// looked at is decoded as by `jsstring_to_str` and must meet what that asks:
/// `try_dom_string_from` asks first.
pub fn dom_string_from(
    null_behavior: StringificationBehavior,
    is_null: bool,
    string: Option<&EngineString>,
    replace_surrogates: bool,
) -> (r: Result<String, ()>)
    requires
        !is_emptied(null_behavior, is_null) && string is Some ==> replace_surrogates
            || is_well_formed(*string->0),
    ensures
        r is Ok <==> is_emptied(null_behavior, is_null) || string is Some,
        is_emptied(null_behavior, is_null) ==> r is Ok && r->Ok_0@ == Seq::<char>::empty(),
        !is_emptied(null_behavior, is_null) && string is Some ==> r is Ok && r->Ok_0@ == decode(
            *string->0,
        ),
{
    let emptied = match null_behavior {
        StringificationBehavior::Empty => is_null,
        StringificationBehavior::Default => false,
    };
    if emptied {
        Ok(String::new())
    } else {
        match string {
            Some(s) => Ok(jsstring_to_str(s, replace_surrogates)),
            None => Err(()),
        }
    }
}

/// The string of a value as `dom_string_from` gives it, or `None` where the
/// engine's string is looked at and holds a surrogate without partner while
/// `replace_surrogates` is not set.
pub fn try_dom_string_from(
    null_behavior: StringificationBehavior,
    is_null: bool,
    string: Option<&EngineString>,
    replace_surrogates: bool,
) -> (r: Option<Result<String, ()>>)
    ensures
        r is None <==> !is_emptied(null_behavior, is_null) && string is Some && !replace_surrogates
            && !is_well_formed(*string->0),
        r is Some ==> (r->0 is Ok <==> is_emptied(null_behavior, is_null) || string is Some),
        r is Some && is_emptied(null_behavior, is_null) ==> r->0 is Ok && r->0->Ok_0@
            == Seq::<char>::empty(),
        r is Some && !is_emptied(null_behavior, is_null) && string is Some ==> r->0 is Ok
            && r->0->Ok_0@ == decode(*string->0),
{
    let emptied = match null_behavior {
        StringificationBehavior::Empty => is_null,
        StringificationBehavior::Default => false,
    };
    let sound = emptied || match string {
        Some(EngineString::TwoByte(units)) => replace_surrogates || check_well_formed_utf16(
            units.as_slice(),
        ),
        _ => true,
    };
    if sound {
        Some(dom_string_from(null_behavior, is_null, string, replace_surrogates))
    } else {
        None
    }
}

} // verus!
