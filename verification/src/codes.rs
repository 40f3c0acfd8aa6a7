//! Four-character codes, packed version numbers and the names built from them.
use vstd::prelude::*;

use crate::plugin::Auv2Plugin;

verus! {

/// The big-endian number that four bytes stand for.
pub open spec fn fourcc_value(bytes: [u8; 4]) -> int {
    bytes[0] * 0x100_0000 + bytes[1] * 0x1_0000 + bytes[2] * 0x100 + bytes[3]
}

/// The four-character code as the host writes it: the bytes read as one big-endian number.
pub fn fourcc(bytes: [u8; 4]) -> (code: u32)
    ensures
        code == fourcc_value(bytes),
{
    (bytes[0] as u32) * 0x100_0000 + (bytes[1] as u32) * 0x1_0000 + (bytes[2] as u32) * 0x100 + (
    bytes[3] as u32)
}

/// Different codes are different numbers.
pub proof fn fourcc_is_injective(a: [u8; 4], b: [u8; 4])
    requires
        fourcc_value(a) == fourcc_value(b),
    ensures
        a@ == b@,
{
    assert(a@ =~= b@);
}

/// The upper case hexadecimal digit for `d`.
pub open spec fn hex_digit(d: int) -> char {
    if d < 10 {
        ('0' as int + d) as char
    } else {
        ('A' as int + d - 10) as char
    }
}

/// The last `n` hexadecimal digits of `value`, most significant digit first.
pub open spec fn hex_digits(value: int, n: nat) -> Seq<char>
    decreases n,
{
    if n == 0 {
        seq![]
    } else {
        hex_digits(value / 16, (n - 1) as nat).push(hex_digit(value % 16))
    }
}

fn hex_digit_str(d: u32) -> (digit: &'static str)
    requires
        d < 16,
    ensures
        digit@ == seq![hex_digit(d as int)],
{
    proof {
        reveal_strlit("0");
        reveal_strlit("1");
        reveal_strlit("2");
        reveal_strlit("3");
        reveal_strlit("4");
        reveal_strlit("5");
        reveal_strlit("6");
        reveal_strlit("7");
        reveal_strlit("8");
        reveal_strlit("9");
        reveal_strlit("A");
        reveal_strlit("B");
        reveal_strlit("C");
        reveal_strlit("D");
        reveal_strlit("E");
        reveal_strlit("F");
    }
    match d {
        0 => "0",
        1 => "1",
        2 => "2",
        3 => "3",
        4 => "4",
        5 => "5",
        6 => "6",
        7 => "7",
        8 => "8",
        9 => "9",
        10 => "A",
        11 => "B",
        12 => "C",
        13 => "D",
        14 => "E",
        _ => "F",
    }
}

fn append_hex(out: &mut String, value: u32, n: usize)
    ensures
        final(out)@ == old(out)@ + hex_digits(value as int, n as nat),
    decreases n,
{
    if n > 0 {
        append_hex(out, value / 16, n - 1);
        out.append(hex_digit_str(value % 16));
    }
}

/// The code as eight upper case hexadecimal digits.
pub fn fourcc_hex(bytes: [u8; 4]) -> (hex: String)
    ensures
        hex@ == hex_digits(fourcc_value(bytes), 8),
{
    let mut hex = String::new();
    append_hex(&mut hex, fourcc(bytes), 8);
    hex
}

/// The part of the Cocoa class names that tells plugins apart.
pub open spec fn class_suffix(type_code: [u8; 4], subtype: [u8; 4], manufacturer: [u8; 4]) -> Seq<
    char,
> {
    hex_digits(fourcc_value(type_code), 8).push('_') + hex_digits(fourcc_value(subtype), 8).push(
        '_',
    ) + hex_digits(fourcc_value(manufacturer), 8)
}

/// The codes of the plugin in hexadecimal: type, subtype and manufacturer.
pub fn cocoa_class_suffix<P: Auv2Plugin>() -> (suffix: String)
    ensures
        suffix@ == class_suffix(P::AUV2_TYPE, P::AUV2_SUBTYPE, P::AUV2_MANUFACTURER),
{
    proof {
        reveal_strlit("_");
    }
    let mut suffix = fourcc_hex(P::AUV2_TYPE);
    suffix.append("_");
    suffix.append(fourcc_hex(P::AUV2_SUBTYPE).as_str());
    suffix.append("_");
    suffix.append(fourcc_hex(P::AUV2_MANUFACTURER).as_str());
    assert(suffix@ =~= class_suffix(P::AUV2_TYPE, P::AUV2_SUBTYPE, P::AUV2_MANUFACTURER));
    suffix
}

/// The name of the Objective-C class that makes editor views for the plugin.
pub fn cocoa_factory_class_name<P: Auv2Plugin>() -> (name: String)
    ensures
        name@ == "NihAuv2Factory_"@ + class_suffix(
            P::AUV2_TYPE,
            P::AUV2_SUBTYPE,
            P::AUV2_MANUFACTURER,
        ),
{
    let mut name = String::from_str("NihAuv2Factory_");
    name.append(cocoa_class_suffix::<P>().as_str());
    name
}

/// The name of the Objective-C class of the plugin's editor views.
pub fn cocoa_view_class_name<P: Auv2Plugin>() -> (name: String)
    ensures
        name@ == "NihAuv2View_"@ + class_suffix(
            P::AUV2_TYPE,
            P::AUV2_SUBTYPE,
            P::AUV2_MANUFACTURER,
        ),
{
    let mut name = String::from_str("NihAuv2View_");
    name.append(cocoa_class_suffix::<P>().as_str());
    name
}

proof fn lemma_hex_digits_len(value: int, n: nat)
    ensures
        hex_digits(value, n).len() == n,
    decreases n,
{
    if n > 0 {
        lemma_hex_digits_len(value / 16, (n - 1) as nat);
    }
}

/// Sixteen to the power of `n`.
pub open spec fn pow16(n: nat) -> int
    decreases n,
{
    if n == 0 {
        1
    } else {
        16 * pow16((n - 1) as nat)
    }
}

proof fn lemma_hex_digits_injective(a: int, b: int, n: nat)
    requires
        0 <= a < pow16(n),
        0 <= b < pow16(n),
        hex_digits(a, n) == hex_digits(b, n),
    ensures
        a == b,
    decreases n,
{
    if n > 0 {
        let m = (n - 1) as nat;
        let x = hex_digits(a / 16, m).push(hex_digit(a % 16));
        let y = hex_digits(b / 16, m).push(hex_digit(b % 16));
        lemma_hex_digits_len(a / 16, m);
        lemma_hex_digits_len(b / 16, m);
        assert(x == y);
        assert(x.last() == y.last());
        assert(x.drop_last() =~= hex_digits(a / 16, m));
        assert(y.drop_last() =~= hex_digits(b / 16, m));
        lemma_hex_digits_injective(a / 16, b / 16, m);
    }
}

/// Plugins with different codes get different class names.
pub proof fn class_suffix_is_injective(
    type_a: [u8; 4],
    subtype_a: [u8; 4],
    manufacturer_a: [u8; 4],
    type_b: [u8; 4],
    subtype_b: [u8; 4],
    manufacturer_b: [u8; 4],
)
    requires
        class_suffix(type_a, subtype_a, manufacturer_a) == class_suffix(
            type_b,
            subtype_b,
            manufacturer_b,
        ),
    ensures
        type_a@ == type_b@,
        subtype_a@ == subtype_b@,
        manufacturer_a@ == manufacturer_b@,
{
    let s = class_suffix(type_a, subtype_a, manufacturer_a);
    let t = class_suffix(type_b, subtype_b, manufacturer_b);
    lemma_class_suffix_parts(type_a, subtype_a, manufacturer_a);
    lemma_class_suffix_parts(type_b, subtype_b, manufacturer_b);
    assert(pow16(8) == 0x1_0000_0000) by {
        reveal_with_fuel(pow16, 9);
    }
    lemma_hex_digits_injective(fourcc_value(type_a), fourcc_value(type_b), 8);
    lemma_hex_digits_injective(fourcc_value(subtype_a), fourcc_value(subtype_b), 8);
    lemma_hex_digits_injective(fourcc_value(manufacturer_a), fourcc_value(manufacturer_b), 8);
    fourcc_is_injective(type_a, type_b);
    fourcc_is_injective(subtype_a, subtype_b);
    fourcc_is_injective(manufacturer_a, manufacturer_b);
}

proof fn lemma_class_suffix_parts(type_code: [u8; 4], subtype: [u8; 4], manufacturer: [u8; 4])
    ensures
        ({
            let s = class_suffix(type_code, subtype, manufacturer);
            &&& s.len() == 26
            &&& s.subrange(0, 8) == hex_digits(fourcc_value(type_code), 8)
            &&& s.subrange(9, 17) == hex_digits(fourcc_value(subtype), 8)
            &&& s.subrange(18, 26) == hex_digits(fourcc_value(manufacturer), 8)
        }),
{
    let s = class_suffix(type_code, subtype, manufacturer);
    lemma_hex_digits_len(fourcc_value(type_code), 8);
    lemma_hex_digits_len(fourcc_value(subtype), 8);
    lemma_hex_digits_len(fourcc_value(manufacturer), 8);
    assert(s.subrange(0, 8) =~= hex_digits(fourcc_value(type_code), 8));
    assert(s.subrange(9, 17) =~= hex_digits(fourcc_value(subtype), 8));
    assert(s.subrange(18, 26) =~= hex_digits(fourcc_value(manufacturer), 8));
}

/// The first character of a code is its highest byte, and the others follow.
pub proof fn first_character_is_the_highest_byte(bytes: [u8; 4])
    ensures
        0 <= fourcc_value(bytes) <= 0xFFFF_FFFF,
        fourcc_value(bytes) / 0x100_0000 == bytes[0],
        fourcc_value(bytes) / 0x1_0000 % 0x100 == bytes[1],
        fourcc_value(bytes) / 0x100 % 0x100 == bytes[2],
        fourcc_value(bytes) % 0x100 == bytes[3],
{
}

/// The number that hexadecimal digits write.
pub open spec fn hex_read(digits: Seq<char>) -> int
    decreases digits.len(),
{
    if digits.len() == 0 {
        0
    } else {
        16 * hex_read(digits.drop_last()) + if '0' <= digits.last() <= '9' {
            digits.last() as int - '0' as int
        } else {
            digits.last() as int - 'A' as int + 10
        }
    }
}

/// Hexadecimal digits are those from zero to nine and the upper case letters from A to F, and they
/// write the number for which they stand.
pub proof fn hex_digits_are_read_back(value: int, n: nat)
    requires
        0 <= value,
        n == 0 ==> value == 0,
        n > 0 ==> value / 16 < pow16((n - 1) as nat),
    ensures
        hex_digits(value, n).len() == n,
        hex_read(hex_digits(value, n)) == value,
        forall|i: int|
            0 <= i < n ==> '0' <= (#[trigger] hex_digits(value, n)[i]) <= '9' || 'A' <= hex_digits(
                value,
                n,
            )[i] <= 'F',
    decreases n,
{
    if n > 0 {
        let m = (n - 1) as nat;
        let head = hex_digits(value / 16, m);
        if m > 0 {
            assert(pow16(m) == 16 * pow16((m - 1) as nat));
        }
        hex_digits_are_read_back(value / 16, m);
        let all = hex_digits(value, n);
        assert(all.drop_last() =~= head);
        assert forall|i: int| 0 <= i < n implies '0' <= (#[trigger] all[i]) <= '9' || 'A' <= all[i]
            <= 'F' by {
            if i < m {
                assert(all[i] == head[i]);
            }
        }
    }
}

/// A class name tells the type, the subtype and the manufacturer of its plugin, in this order, as
/// eight digits each with a line between them.
pub proof fn class_name_tells_the_codes(
    type_code: [u8; 4],
    subtype: [u8; 4],
    manufacturer: [u8; 4],
)
    ensures
        ({
            let s = class_suffix(type_code, subtype, manufacturer);
            &&& s.len() == 26
            &&& s[8] == '_'
            &&& s[17] == '_'
            &&& hex_read(s.subrange(0, 8)) / 0x100_0000 == type_code[0]
            &&& hex_read(s.subrange(0, 8)) / 0x1_0000 % 0x100 == type_code[1]
            &&& hex_read(s.subrange(0, 8)) / 0x100 % 0x100 == type_code[2]
            &&& hex_read(s.subrange(0, 8)) % 0x100 == type_code[3]
            &&& hex_read(s.subrange(9, 17)) / 0x100_0000 == subtype[0]
            &&& hex_read(s.subrange(9, 17)) / 0x1_0000 % 0x100 == subtype[1]
            &&& hex_read(s.subrange(9, 17)) / 0x100 % 0x100 == subtype[2]
            &&& hex_read(s.subrange(9, 17)) % 0x100 == subtype[3]
            &&& hex_read(s.subrange(18, 26)) / 0x100_0000 == manufacturer[0]
            &&& hex_read(s.subrange(18, 26)) / 0x1_0000 % 0x100 == manufacturer[1]
            &&& hex_read(s.subrange(18, 26)) / 0x100 % 0x100 == manufacturer[2]
            &&& hex_read(s.subrange(18, 26)) % 0x100 == manufacturer[3]
        }),
{
    lemma_class_suffix_parts(type_code, subtype, manufacturer);
    lemma_hex_digits_len(fourcc_value(type_code), 8);
    lemma_hex_digits_len(fourcc_value(subtype), 8);
    assert(pow16(7) == 0x1000_0000) by {
        reveal_with_fuel(pow16, 8);
    }
    hex_digits_are_read_back(fourcc_value(type_code), 8);
    hex_digits_are_read_back(fourcc_value(subtype), 8);
    hex_digits_are_read_back(fourcc_value(manufacturer), 8);
    first_character_is_the_highest_byte(type_code);
    first_character_is_the_highest_byte(subtype);
    first_character_is_the_highest_byte(manufacturer);
}

} // verus!
