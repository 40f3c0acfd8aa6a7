//! What a host is told about a parameter.
use vstd::prelude::*;
use vstd::utf8::{encode_utf8, is_char_boundary};

use crate::params::{ParamEntry, ParamPtr};

verus! {

pub const K_AUDIO_UNIT_PARAMETER_UNIT_GENERIC: u32 = 0;

pub const K_AUDIO_UNIT_PARAMETER_UNIT_INDEXED: u32 = 1;

pub const K_AUDIO_UNIT_PARAMETER_UNIT_BOOLEAN: u32 = 2;

pub const K_AUDIO_UNIT_PARAMETER_UNIT_PERCENT: u32 = 3;

pub const K_AUDIO_UNIT_PARAMETER_UNIT_SECONDS: u32 = 4;

pub const K_AUDIO_UNIT_PARAMETER_UNIT_HERTZ: u32 = 8;

pub const K_AUDIO_UNIT_PARAMETER_UNIT_DECIBELS: u32 = 13;

pub const K_AUDIO_UNIT_PARAMETER_UNIT_LINEAR_GAIN: u32 = 14;

pub const K_AUDIO_UNIT_PARAMETER_UNIT_BPM: u32 = 22;

pub const K_AUDIO_UNIT_PARAMETER_UNIT_MILLISECONDS: u32 = 24;

pub const K_AUDIO_UNIT_PARAMETER_FLAG_GLOBAL: u32 = 0x1;

pub const K_AUDIO_UNIT_PARAMETER_FLAG_CF_NAME_RELEASE: u32 = 0x10;

pub const K_AUDIO_UNIT_PARAMETER_FLAG_VALUES_HAVE_STRINGS: u32 = 0x20_0000;

pub const K_AUDIO_UNIT_PARAMETER_FLAG_CAN_RAMP: u32 = 0x200_0000;

pub const K_AUDIO_UNIT_PARAMETER_FLAG_HAS_CF_NAME_STRING: u32 = 0x800_0000;

pub const K_AUDIO_UNIT_PARAMETER_FLAG_IS_READABLE: u32 = 0x4000_0000;

pub const K_AUDIO_UNIT_PARAMETER_FLAG_IS_WRITABLE: u32 = 0x8000_0000;

/// The flags that every parameter has.
pub const COMMON_PARAMETER_FLAGS: u32 = 0xC800_0011;

/// The bytes of a parameter's short name, with the zero behind it.
pub const SHORT_NAME_SIZE: usize = 52;

/// What a host is told about a parameter. The values are the bits of an `f32`.
pub struct AudioUnitParameterInfo {
    /// The beginning of the name, with a zero behind it.
    pub name: [u8; 52],
    pub unitName: Option<String>,
    pub clumpID: u32,
    pub cfNameString: String,
    pub unit: u32,
    pub minValue: u32,
    pub maxValue: u32,
    pub defaultValue: u32,
    pub flags: u32,
}

/// Whether Unicode calls a character white space.
pub open spec fn is_white_space(c: char) -> bool {
    ||| '\u{9}' <= c <= '\u{d}'
    ||| c == '\u{20}'
    ||| c == '\u{85}'
    ||| c == '\u{a0}'
    ||| c == '\u{1680}'
    ||| '\u{2000}' <= c <= '\u{200a}'
    ||| c == '\u{2028}'
    ||| c == '\u{2029}'
    ||| c == '\u{202f}'
    ||| c == '\u{205f}'
    ||| c == '\u{3000}'
}

fn char_is_white_space(c: char) -> (white: bool)
    ensures
        white == is_white_space(c),
{
    ('\u{9}' <= c && c <= '\u{d}') || c == '\u{20}' || c == '\u{85}' || c == '\u{a0}' || c
        == '\u{1680}' || ('\u{2000}' <= c && c <= '\u{200a}') || c == '\u{2028}' || c == '\u{2029}'
        || c == '\u{202f}' || c == '\u{205f}' || c == '\u{3000}'
}

/// `s` without the white space in front.
pub open spec fn trim_front(s: Seq<char>) -> Seq<char>
    decreases s.len(),
{
    if s.len() > 0 && is_white_space(s[0]) {
        trim_front(s.drop_first())
    } else {
        s
    }
}

/// `s` without the white space at the end.
pub open spec fn trim_back(s: Seq<char>) -> Seq<char>
    decreases s.len(),
{
    if s.len() > 0 && is_white_space(s.last()) {
        trim_back(s.drop_last())
    } else {
        s
    }
}

/// `s` without the white space around it.
pub open spec fn trimmed(s: Seq<char>) -> Seq<char> {
    trim_back(trim_front(s))
}

/// An upper case ASCII letter as a lower case one; any other character as it is.
pub open spec fn ascii_lower(c: char) -> char {
    if 'A' <= c <= 'Z' {
        (c as int + 32) as char
    } else {
        c
    }
}

/// The unit of a real-valued parameter, by the text of its unit.
pub open spec fn unit_of_text(unit: Seq<char>) -> u32 {
    let text = trimmed(unit).map_values(|c: char| ascii_lower(c));
    if text == "%"@ {
        K_AUDIO_UNIT_PARAMETER_UNIT_PERCENT
    } else if text == "s"@ || text == "sec"@ || text == "seconds"@ {
        K_AUDIO_UNIT_PARAMETER_UNIT_SECONDS
    } else if text == "ms"@ {
        K_AUDIO_UNIT_PARAMETER_UNIT_MILLISECONDS
    } else if text == "hz"@ {
        K_AUDIO_UNIT_PARAMETER_UNIT_HERTZ
    } else if text == "db"@ {
        K_AUDIO_UNIT_PARAMETER_UNIT_DECIBELS
    } else if text == "gain"@ {
        K_AUDIO_UNIT_PARAMETER_UNIT_LINEAR_GAIN
    } else if text == "bpm"@ {
        K_AUDIO_UNIT_PARAMETER_UNIT_BPM
    } else {
        K_AUDIO_UNIT_PARAMETER_UNIT_GENERIC
    }
}

/// The unit of a parameter: by its kind, and for a real-valued one by the text of its unit.
pub open spec fn unit_of(ptr: ParamPtr, unit: Seq<char>) -> u32 {
    match ptr {
        ParamPtr::BoolParam(_) => K_AUDIO_UNIT_PARAMETER_UNIT_BOOLEAN,
        ParamPtr::EnumParam(_) => K_AUDIO_UNIT_PARAMETER_UNIT_INDEXED,
        ParamPtr::IntParam(_) => K_AUDIO_UNIT_PARAMETER_UNIT_INDEXED,
        ParamPtr::FloatParam(_) => unit_of_text(unit),
    }
}

/// `text` without the white space around it.
fn trim(text: &str) -> (inner: &str)
    ensures
        inner@ == trimmed(text@),
{
    let len = text.unicode_len();
    let mut from: usize = 0;
    assert(text@.subrange(0, len as int) =~= text@);
    while from < len && char_is_white_space(text.get_char(from))
        invariant
            from <= len == text@.len(),
            trim_front(text@) == trim_front(text@.subrange(from as int, len as int)),
        decreases len - from,
    {
        assert(text@.subrange(from as int, len as int).drop_first() =~= text@.subrange(
            from + 1,
            len as int,
        ));
        from += 1;
    }
    let mut to: usize = len;
    while to > from && char_is_white_space(text.get_char(to - 1))
        invariant
            from <= to <= len == text@.len(),
            trimmed(text@) == trim_back(text@.subrange(from as int, to as int)),
        decreases to - from,
    {
        assert(text@.subrange(from as int, to as int).drop_last() =~= text@.subrange(
            from as int,
            to - 1,
        ));
        to -= 1;
    }
    text.substring_char(from, to)
}

fn lower_chars(text: &str) -> (lower: Vec<char>)
    ensures
        lower@ == text@.map_values(|c: char| ascii_lower(c)),
{
    let mut lower: Vec<char> = Vec::new();
    let len = text.unicode_len();
    let mut i: usize = 0;
    while i < len
        invariant
            i <= len == text@.len(),
            lower@.len() == i,
            forall|j: int| 0 <= j < i ==> lower@[j] == ascii_lower(text@[j]),
        decreases len - i,
    {
        let c = text.get_char(i);
        if 'A' <= c && c <= 'Z' {
            lower.push(((c as u8) + 32) as char);
        } else {
            lower.push(c);
        }
        i += 1;
    }
    assert(lower@ =~= text@.map_values(|c: char| ascii_lower(c)));
    lower
}

fn chars_are(chars: &Vec<char>, text: &str) -> (same: bool)
    ensures
        same == (chars@ == text@),
{
    if chars.len() != text.unicode_len() {
        return false;
    }
    let mut i: usize = 0;
    while i < chars.len()
        invariant
            i <= chars@.len() == text@.len(),
            forall|j: int| 0 <= j < i ==> chars@[j] == text@[j],
        decreases chars@.len() - i,
    {
        if chars[i] != text.get_char(i) {
            return false;
        }
        i += 1;
    }
    assert(chars@ =~= text@);
    true
}

/// The unit under which a host shows a parameter.
pub fn parameter_unit(ptr: ParamPtr, unit: &str) -> (code: u32)
    ensures
        code == unit_of(ptr, unit@),
{
    match ptr {
        ParamPtr::BoolParam(_) => K_AUDIO_UNIT_PARAMETER_UNIT_BOOLEAN,
        ParamPtr::EnumParam(_) => K_AUDIO_UNIT_PARAMETER_UNIT_INDEXED,
        ParamPtr::IntParam(_) => K_AUDIO_UNIT_PARAMETER_UNIT_INDEXED,
        ParamPtr::FloatParam(_) => {
            let text = lower_chars(trim(unit));
            if chars_are(&text, "%") {
                K_AUDIO_UNIT_PARAMETER_UNIT_PERCENT
            } else if chars_are(&text, "s") || chars_are(&text, "sec") || chars_are(
                &text,
                "seconds",
            ) {
                K_AUDIO_UNIT_PARAMETER_UNIT_SECONDS
            } else if chars_are(&text, "ms") {
                K_AUDIO_UNIT_PARAMETER_UNIT_MILLISECONDS
            } else if chars_are(&text, "hz") {
                K_AUDIO_UNIT_PARAMETER_UNIT_HERTZ
            } else if chars_are(&text, "db") {
                K_AUDIO_UNIT_PARAMETER_UNIT_DECIBELS
            } else if chars_are(&text, "gain") {
                K_AUDIO_UNIT_PARAMETER_UNIT_LINEAR_GAIN
            } else if chars_are(&text, "bpm") {
                K_AUDIO_UNIT_PARAMETER_UNIT_BPM
            } else {
                K_AUDIO_UNIT_PARAMETER_UNIT_GENERIC
            }
        },
    }
}

/// The bytes of a text in a field of `size` bytes: as many as fit in front of a zero, then zeros.
pub open spec fn in_field(bytes: Seq<u8>, size: int) -> Seq<u8> {
    Seq::new(
        size as nat,
        |i: int|
            if i < bytes.len() && i < size - 1 {
                bytes[i]
            } else {
                0
            },
    )
}

/// The flags of a parameter: values with steps have texts, and values without steps can ramp
/// where they can be automated.
pub open spec fn flags_of(entry: ParamEntry) -> u32 {
    (K_AUDIO_UNIT_PARAMETER_FLAG_GLOBAL + K_AUDIO_UNIT_PARAMETER_FLAG_IS_READABLE
        + K_AUDIO_UNIT_PARAMETER_FLAG_IS_WRITABLE + K_AUDIO_UNIT_PARAMETER_FLAG_HAS_CF_NAME_STRING
        + K_AUDIO_UNIT_PARAMETER_FLAG_CF_NAME_RELEASE + if entry.step_count is Some {
        K_AUDIO_UNIT_PARAMETER_FLAG_VALUES_HAVE_STRINGS as int
    } else if !entry.is_non_automatable {
        K_AUDIO_UNIT_PARAMETER_FLAG_CAN_RAMP as int
    } else {
        0
    }) as u32
}

/// Whether `info` is what a host is told about a parameter.
pub open spec fn describes(info: AudioUnitParameterInfo, entry: ParamEntry) -> bool {
    &&& info.name@ == in_field(encode_utf8(entry.name@), SHORT_NAME_SIZE as int)
    &&& info.cfNameString@ == entry.name@
    &&& info.unit == unit_of(entry.ptr, entry.unit@)
    &&& match info.unitName {
        Some(name) => name@ == trimmed(entry.unit@) && name@.len() > 0 && info.unit
            == K_AUDIO_UNIT_PARAMETER_UNIT_GENERIC,
        None => trimmed(entry.unit@).len() == 0 || info.unit != K_AUDIO_UNIT_PARAMETER_UNIT_GENERIC,
    }
    &&& info.clumpID == 0
    &&& info.minValue == entry.min_value
    &&& info.maxValue == entry.max_value
    &&& info.defaultValue == entry.default_value
    &&& info.flags == flags_of(entry)
}

/// What a host is told about a parameter.
pub fn parameter_info(entry: &ParamEntry) -> (info: AudioUnitParameterInfo)
    ensures
        describes(info, *entry),
{
    let bytes = entry.name.as_str().as_bytes();
    let mut name: [u8; 52] = [0;52];
    let mut i: usize = 0;
    while i < bytes.len() && i < SHORT_NAME_SIZE - 1
        invariant
            i <= bytes@.len(),
            i <= SHORT_NAME_SIZE - 1,
            forall|j: int| 0 <= j < i ==> name@[j] == bytes@[j],
            forall|j: int| i <= j < SHORT_NAME_SIZE ==> name@[j] == 0,
        decreases SHORT_NAME_SIZE - i,
    {
        name[i] = bytes[i];
        i += 1;
    }
    assert(name@ =~= in_field(bytes@, SHORT_NAME_SIZE as int));
    let unit = parameter_unit(entry.ptr, entry.unit.as_str());
    let unit_text = trim(entry.unit.as_str());
    let flags: u32 = if entry.step_count.is_some() {
        COMMON_PARAMETER_FLAGS + K_AUDIO_UNIT_PARAMETER_FLAG_VALUES_HAVE_STRINGS
    } else if !entry.is_non_automatable {
        COMMON_PARAMETER_FLAGS + K_AUDIO_UNIT_PARAMETER_FLAG_CAN_RAMP
    } else {
        COMMON_PARAMETER_FLAGS
    };
    AudioUnitParameterInfo {
        name,
        unitName: if !unit_text.is_empty() && unit == K_AUDIO_UNIT_PARAMETER_UNIT_GENERIC {
            Some(unit_text.to_owned())
        } else {
            None
        },
        clumpID: 0,
        cfNameString: entry.name.as_str().to_owned(),
        unit,
        minValue: entry.min_value,
        maxValue: entry.max_value,
        defaultValue: entry.default_value,
        flags,
    }
}

/// Whether a name of `len` bytes is cut for a host that asks for `desired_length` bytes.
pub open spec fn is_cut(len: usize, desired_length: i32) -> bool {
    desired_length >= 0 && (len as i32) > desired_length
}

/// A name cut to the number of bytes that a host asks for. A negative number asks for all of
/// them. A character cannot be cut in two.
pub fn truncated_name(name: &str, desired_length: i32) -> (cut: String)
    requires
        is_cut(encode_utf8(name@).len() as usize, desired_length) ==> is_char_boundary(
            encode_utf8(name@),
            desired_length as int,
        ),
    ensures
        encode_utf8(cut@) == if is_cut(encode_utf8(name@).len() as usize, desired_length) {
            encode_utf8(name@).subrange(0, desired_length as int)
        } else {
            encode_utf8(name@)
        },
{
    if desired_length >= 0 && (name.len() as i32) > desired_length {
        let (cut, _) = name.split_at(desired_length as usize);
        cut.to_owned()
    } else {
        name.to_owned()
    }
}

proof fn lemma_trim_front(s: Seq<char>, c: char)
    ensures
        is_white_space(c) ==> trim_front(seq![c] + s) == trim_front(s),
        s.len() > 0 && !is_white_space(s[0]) ==> trim_front(s) == s,
        trim_front(s).len() > 0 ==> !is_white_space(trim_front(s)[0]) && trim_front(s).last()
            == s.last(),
        trim_front(s).len() <= s.len(),
    decreases s.len(),
{
    assert((seq![c] + s).drop_first() =~= s);
    assert((seq![c] + s)[0] == c);
    if s.len() > 0 && is_white_space(s[0]) {
        lemma_trim_front(s.drop_first(), c);
    }
}

proof fn lemma_trim_front_push(s: Seq<char>, c: char)
    requires
        is_white_space(c),
    ensures
        trimmed(s.push(c)) == trimmed(s),
    decreases s.len(),
{
    let longer = s.push(c);
    if s.len() == 0 {
        assert(longer.drop_first() =~= Seq::<char>::empty());
        assert(trim_front(longer) == trim_front(longer.drop_first()));
        assert(trim_front(longer) =~= Seq::<char>::empty());
        assert(trim_front(s) =~= Seq::<char>::empty());
    } else if is_white_space(s[0]) {
        lemma_trim_front_push(s.drop_first(), c);
        assert(longer.drop_first() =~= s.drop_first().push(c));
        assert(longer[0] == s[0]);
    } else {
        assert(longer[0] == s[0]);
        assert(trim_front(longer) == longer);
        assert(trim_front(s) == s);
        assert(longer.drop_last() =~= s);
        assert(longer.last() == c);
    }
}

/// White space around the text of a unit does not count.
pub proof fn space_around_a_unit_does_not_count(unit: Seq<char>, space: char)
    requires
        is_white_space(space),
    ensures
        trimmed(seq![space] + unit) == trimmed(unit),
        trimmed(unit.push(space)) == trimmed(unit),
        unit_of_text(seq![space] + unit) == unit_of_text(unit),
        unit_of_text(unit.push(space)) == unit_of_text(unit),
{
    lemma_trim_front(unit, space);
    lemma_trim_front_push(unit, space);
}

/// A unit that has no white space around it is what it is, whatever the case of its letters: the
/// texts for percent, seconds, milliseconds, hertz, decibels, gain and beats per minute have units
/// of their own, and every other text is generic.
pub proof fn units_are_known_by_their_texts(unit: Seq<char>)
    requires
        unit.len() > 0,
        !is_white_space(unit[0]),
        !is_white_space(unit.last()),
    ensures
        trimmed(unit) == unit,
        ({
            let lower = Seq::new(
                unit.len(),
                |i: int|
                    if 'A' <= unit[i] <= 'Z' {
                        (unit[i] as int + 32) as char
                    } else {
                        unit[i]
                    },
            );
            &&& lower == "%"@ ==> unit_of_text(unit) == 3
            &&& lower == "s"@ || lower == "sec"@ || lower == "seconds"@ ==> unit_of_text(unit) == 4
            &&& lower == "hz"@ ==> unit_of_text(unit) == 8
            &&& lower == "db"@ ==> unit_of_text(unit) == 13
            &&& lower == "gain"@ ==> unit_of_text(unit) == 14
            &&& lower == "bpm"@ ==> unit_of_text(unit) == 22
            &&& lower == "ms"@ ==> unit_of_text(unit) == 24
            &&& !(lower == "%"@ || lower == "s"@ || lower == "sec"@ || lower == "seconds"@ || lower
                == "hz"@ || lower == "db"@ || lower == "gain"@ || lower == "bpm"@ || lower == "ms"@)
                ==> unit_of_text(unit) == 0
        }),
{
    reveal_strlit("%");
    reveal_strlit("s");
    reveal_strlit("sec");
    reveal_strlit("seconds");
    reveal_strlit("ms");
    reveal_strlit("hz");
    reveal_strlit("db");
    reveal_strlit("gain");
    reveal_strlit("bpm");
    assert(trim_front(unit) == unit);
    assert(trim_back(unit) == unit);
    let lower = Seq::new(
        unit.len(),
        |i: int|
            if 'A' <= unit[i] <= 'Z' {
                (unit[i] as int + 32) as char
            } else {
                unit[i]
            },
    );
    assert(unit.map_values(|c: char| ascii_lower(c)) =~= lower);
    assert("%"@.len() == 1 && "s"@.len() == 1 && "sec"@.len() == 3 && "seconds"@.len() == 7
        && "ms"@.len() == 2 && "hz"@.len() == 2 && "db"@.len() == 2 && "gain"@.len() == 4
        && "bpm"@.len() == 3);
    assert("%"@[0] == '%' && "s"@[0] == 's' && "sec"@[0] == 's' && "ms"@[0] == 'm' && "hz"@[0]
        == 'h' && "db"@[0] == 'd' && "bpm"@[0] == 'b');
}

/// Switches are shown as switches, and numbers and choices by their index, whatever their text.
/// The text counts for parameters without steps.
pub proof fn kinds_have_their_units(address: usize, unit: Seq<char>)
    ensures
        unit_of(ParamPtr::BoolParam(address), unit) == 2,
        unit_of(ParamPtr::EnumParam(address), unit) == 1,
        unit_of(ParamPtr::IntParam(address), unit) == 1,
        unit_of(ParamPtr::FloatParam(address), unit) == unit_of_text(unit),
{
}

/// A host is told the whole name, and the beginning of it in a field that always ends with a zero:
/// up to 51 bytes, and zeros behind them.
pub proof fn short_name_is_the_beginning(info: AudioUnitParameterInfo, entry: ParamEntry, i: int)
    requires
        describes(info, entry),
        0 <= i < 52,
    ensures
        info.cfNameString@ == entry.name@,
        i < 51 && i < encode_utf8(entry.name@).len() ==> info.name@[i] == encode_utf8(
            entry.name@,
        )[i],
        i >= encode_utf8(entry.name@).len() ==> info.name@[i] == 0,
        info.name@[51] == 0,
{
}

/// A host is told the values of a parameter as they are, and the text of its unit exactly where
/// there is one that no unit stands for.
pub proof fn values_and_unit_are_told(info: AudioUnitParameterInfo, entry: ParamEntry)
    requires
        describes(info, entry),
    ensures
        info.minValue == entry.min_value,
        info.maxValue == entry.max_value,
        info.defaultValue == entry.default_value,
        info.clumpID == 0,
        info.unit == unit_of(entry.ptr, entry.unit@),
        info.unitName is Some <==> info.unit == 0 && trimmed(entry.unit@).len() > 0,
        info.unitName matches Some(text) ==> text@ == trimmed(entry.unit@),
{
}

/// Every parameter can be read and written, belongs to the whole unit and has a name that the host
/// gives back. Values with steps have texts, and values without steps can ramp where they can be
/// automated. There are no other flags.
pub proof fn flags_tell_what_a_parameter_can(info: AudioUnitParameterInfo, entry: ParamEntry)
    requires
        describes(info, entry),
    ensures
        info.flags & 0x1 != 0,
        info.flags & 0x10 != 0,
        info.flags & 0x800_0000 != 0,
        info.flags & 0x4000_0000 != 0,
        info.flags & 0x8000_0000 != 0,
        info.flags & 0x20_0000 != 0 <==> entry.step_count is Some,
        info.flags & 0x200_0000 != 0 <==> entry.step_count is None && !entry.is_non_automatable,
        info.flags & 0x35DF_FFEE == 0,
{
    let flags = info.flags;
    assert(flags == 0xC820_0011 || flags == 0xCA00_0011 || flags == 0xC800_0011);
    assert(flags == 0xC820_0011 || flags == 0xCA00_0011 || flags == 0xC800_0011 ==> flags & 0x1 != 0
        && flags & 0x10 != 0 && flags & 0x800_0000 != 0 && flags & 0x4000_0000 != 0 && flags
        & 0x8000_0000 != 0 && (flags & 0x20_0000 != 0 <==> flags == 0xC820_0011) && (flags
        & 0x200_0000 != 0 <==> flags == 0xCA00_0011) && flags & 0x35DF_FFEE == 0) by (bit_vector);
}

/// A name is cut where it has more bytes than the host asks for, and a negative number asks for
/// all of them.
pub proof fn longer_names_are_cut(len: usize, desired_length: i32)
    requires
        len <= i32::MAX,
    ensures
        desired_length < 0 ==> !is_cut(len, desired_length),
        desired_length >= 0 ==> (is_cut(len, desired_length) <==> len > desired_length),
{
}

/// White space is what Unicode calls so, by the numbers of the characters: 25 of them.
pub proof fn white_space_has_its_numbers(c: char)
    ensures
        is_white_space(c) <==> (9 <= c as int <= 13) || c as int == 32 || c as int == 0x85 || c as int
            == 0xA0 || c as int == 0x1680 || (0x2000 <= c as int <= 0x200A) || c as int == 0x2028
            || c as int == 0x2029 || c as int == 0x202F || c as int == 0x205F || c as int == 0x3000,
{
}

} // verus!
