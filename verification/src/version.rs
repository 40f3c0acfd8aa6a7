//! Version strings and the binary coded decimal form in which a host gets them.
use vstd::prelude::*;

verus! {

/// The position of the first `c` in `s`, or the length of `s` where there is none.
pub open spec fn find(s: Seq<char>, c: char) -> int
    decreases s.len(),
{
    if s.len() == 0 || s[0] == c {
        0
    } else {
        1 + find(s.drop_first(), c)
    }
}

proof fn lemma_find_is(s: Seq<char>, c: char, i: int)
    requires
        0 <= i <= s.len(),
        forall|j: int| 0 <= j < i ==> s[j] != c,
        i < s.len() ==> s[i] == c,
    ensures
        find(s, c) == i,
    decreases s.len(),
{
    if i > 0 {
        let t = s.drop_first();
        assert forall|j: int| 0 <= j < i - 1 implies t[j] != c by {
            assert(s[j + 1] != c);
        }
        lemma_find_is(t, c, i - 1);
    }
}

proof fn lemma_find_bounds(s: Seq<char>, c: char)
    ensures
        0 <= find(s, c) <= s.len(),
    decreases s.len(),
{
    if s.len() > 0 && s[0] != c {
        lemma_find_bounds(s.drop_first(), c);
    }
}

/// The `n`-th field of `s` between dots, or nothing where there are fewer fields.
pub open spec fn dotted_field(s: Seq<char>, n: nat) -> Option<Seq<char>>
    decreases n,
{
    let end = find(s, '.');
    if n == 0 {
        Some(s.take(end))
    } else if end < s.len() {
        dotted_field(s.skip(end + 1), (n - 1) as nat)
    } else {
        None
    }
}

pub open spec fn is_digit(c: char) -> bool {
    '0' <= c <= '9'
}

/// The decimal number that the digits of `s` write.
pub open spec fn decimal_value(s: Seq<char>) -> int
    decreases s.len(),
{
    if s.len() == 0 {
        0
    } else {
        10 * decimal_value(s.drop_last()) + (s.last() as int - '0' as int)
    }
}

/// The number that at least one decimal digit, and nothing else, writes, where it fits in 32 bits.
pub open spec fn digits_number(digits: Seq<char>) -> Option<int> {
    if digits.len() > 0 && (forall|i: int| 0 <= i < digits.len() ==> is_digit(#[trigger] digits[i]))
        && decimal_value(digits) <= u32::MAX {
        Some(decimal_value(digits))
    } else {
        None
    }
}

/// The number that `s` writes: decimal digits behind an optional plus sign.
pub open spec fn parsed_number(s: Seq<char>) -> Option<int> {
    if s.len() > 0 && s[0] == '+' {
        digits_number(s.drop_first())
    } else {
        digits_number(s)
    }
}

/// The part of a version string in front of its first dash, which starts a pre-release tag.
pub open spec fn release_part(version: Seq<char>) -> Seq<char> {
    version.take(find(version, '-'))
}

/// The `n`-th number of a version: zero where it is missing or is not a number.
pub open spec fn version_number(version: Seq<char>, n: nat) -> int {
    match dotted_field(release_part(version), n) {
        Some(field) => match parsed_number(field) {
            Some(number) => number,
            None => 0,
        },
        None => 0,
    }
}

/// The last `digits` decimal digits of `value`, each in four bits.
pub open spec fn bcd(value: int, digits: nat) -> int
    decreases digits,
{
    if digits == 0 {
        0
    } else {
        value % 10 + 16 * bcd(value / 10, (digits - 1) as nat)
    }
}

/// The version number that a host reads from a version string: four digits of the major number
/// in the upper half, then two digits of the minor and two of the patch number.
pub open spec fn packed_version(version: Seq<char>) -> int {
    bcd(version_number(version, 0), 4) * 0x1_0000 + bcd(version_number(version, 1), 2) * 0x100
        + bcd(version_number(version, 2), 2)
}

pub open spec fn power(base: int, n: nat) -> int
    decreases n,
{
    if n == 0 {
        1
    } else {
        base * power(base, (n - 1) as nat)
    }
}

proof fn lemma_bcd_bound(value: int, digits: nat)
    requires
        0 <= value,
    ensures
        0 <= bcd(value, digits) < power(16, digits),
    decreases digits,
{
    if digits > 0 {
        lemma_bcd_bound(value / 10, (digits - 1) as nat);
    }
}

proof fn lemma_power16_monotone(a: nat, b: nat)
    requires
        a <= b,
    ensures
        0 < power(16, a) <= power(16, b),
    decreases b,
{
    if a < b {
        lemma_power16_monotone(a, (b - 1) as nat);
    } else if a > 0 {
        lemma_power16_monotone((a - 1) as nat, (b - 1) as nat);
    }
}

/// Packs the last `digits` decimal digits of `value`, four bits for each.
pub fn pack_bcd_version(value: u32, digits: usize) -> (packed: u32)
    requires
        digits <= 8,
    ensures
        packed == bcd(value as int, digits as nat),
    decreases digits,
{
    if digits == 0 {
        0
    } else {
        let rest = pack_bcd_version(value / 10, digits - 1);
        proof {
            lemma_bcd_bound(value as int, digits as nat);
            lemma_power16_monotone(digits as nat, 8);
            assert(power(16, 8) == 0x1_0000_0000) by {
                reveal_with_fuel(power, 9);
            }
        }
        value % 10 + 16 * rest
    }
}

/// The number that `digits` groups of four bits write, read as decimal digits.
pub open spec fn bcd_decoded(packed: int, digits: nat) -> int
    decreases digits,
{
    if digits == 0 {
        0
    } else {
        packed % 16 + 10 * bcd_decoded(packed / 16, (digits - 1) as nat)
    }
}

/// Packing loses nothing of a number that has no more than `digits` digits.
pub proof fn bcd_round_trip(value: int, digits: nat)
    requires
        0 <= value < power(10, digits),
    ensures
        bcd_decoded(bcd(value, digits), digits) == value,
    decreases digits,
{
    if digits > 0 {
        let rest = bcd(value / 10, (digits - 1) as nat);
        bcd_round_trip(value / 10, (digits - 1) as nat);
        assert(bcd(value, digits) % 16 == value % 10);
        assert(bcd(value, digits) / 16 == rest);
    }
}

proof fn lemma_decimal_value_grows(s: Seq<char>, i: int)
    requires
        0 <= i <= s.len(),
        forall|j: int| 0 <= j < s.len() ==> is_digit(#[trigger] s[j]),
    ensures
        0 <= decimal_value(s.take(i)) <= decimal_value(s),
    decreases s.len(),
{
    if i == s.len() {
        assert(s.take(i) =~= s);
        if s.len() > 0 {
            lemma_decimal_value_grows(s.drop_last(), s.len() - 1);
            assert(s.drop_last().take(s.len() - 1) =~= s.drop_last());
            assert(is_digit(s[s.len() - 1]));
        }
    } else {
        lemma_decimal_value_grows(s.drop_last(), i);
        assert(s.drop_last().take(i) =~= s.take(i));
        assert(is_digit(s[s.len() - 1]));
    }
}

fn find_char(chars: &Vec<char>, from: usize, to: usize, c: char) -> (i: usize)
    requires
        from <= to <= chars@.len(),
    ensures
        from <= i <= to,
        i - from == find(chars@.subrange(from as int, to as int), c),
{
    let mut i: usize = from;
    while i < to && chars[i] != c
        invariant
            from <= i <= to <= chars@.len(),
            forall|j: int| from <= j < i ==> chars@[j] != c,
        decreases to - i,
    {
        i += 1;
    }
    proof {
        lemma_find_is(chars@.subrange(from as int, to as int), c, i - from);
    }
    i
}

fn parse_number(chars: &Vec<char>, from: usize, to: usize) -> (number: Option<u32>)
    requires
        from <= to <= chars@.len(),
    ensures
        match number {
            Some(n) => parsed_number(chars@.subrange(from as int, to as int)) == Some(n as int),
            None => parsed_number(chars@.subrange(from as int, to as int)) is None,
        },
{
    let ghost field = chars@.subrange(from as int, to as int);
    let start: usize = if from < to && chars[from] == '+' {
        from + 1
    } else {
        from
    };
    let ghost digits = chars@.subrange(start as int, to as int);
    proof {
        if field.len() > 0 && field[0] == '+' {
            assert(digits =~= field.drop_first());
        } else {
            assert(digits =~= field);
        }
    }
    if start == to {
        return None;
    }
    let mut i: usize = start;
    let mut value: u64 = 0;
    while i < to
        invariant
            start <= i <= to <= chars@.len(),
            digits == chars@.subrange(start as int, to as int),
            forall|j: int| 0 <= j < i - start ==> is_digit(#[trigger] digits[j]),
            value <= u32::MAX,
            value == decimal_value(digits.take(i - start)),
            start < to,
            parsed_number(chars@.subrange(from as int, to as int)) == digits_number(digits),
        decreases to - i,
    {
        let c = chars[i];
        assert(digits[i - start] == c);
        if c < '0' || c > '9' {
            return None;
        }
        value = value * 10 + ((c as u32 - '0' as u32) as u64);
        proof {
            let next = digits.take(i - start + 1);
            assert(next.drop_last() =~= digits.take(i - start));
            assert(next.last() == c);
        }
        i += 1;
        if value > u32::MAX as u64 {
            proof {
                if forall|j: int| 0 <= j < digits.len() ==> is_digit(#[trigger] digits[j]) {
                    lemma_decimal_value_grows(digits, i - start);
                }
            }
            return None;
        }
    }
    assert(digits.take(i - start) =~= digits);
    Some(value as u32)
}

fn field_number(chars: &Vec<char>, from: usize, to: usize) -> (number: u32)
    requires
        from <= to <= chars@.len(),
    ensures
        number == match parsed_number(chars@.subrange(from as int, to as int)) {
            Some(n) => n,
            None => 0,
        },
{
    match parse_number(chars, from, to) {
        Some(n) => n,
        None => 0,
    }
}

/// The packed form of a version string such as `1.12.3` or `2.0.0-beta`.
pub fn parse_auv2_version(version: &str) -> (packed: u32)
    ensures
        packed == packed_version(version@),
{
    let mut chars: Vec<char> = Vec::new();
    let len = version.unicode_len();
    let mut i: usize = 0;
    while i < len
        invariant
            i <= len == version@.len(),
            chars@ == version@.take(i as int),
        decreases len - i,
    {
        chars.push(version.get_char(i));
        i += 1;
        assert(version@.take(i as int) =~= version@.take(i - 1).push(version@[i - 1]));
    }
    assert(chars@ =~= version@);
    assert(chars@.subrange(0, len as int) =~= version@);
    let end = find_char(&chars, 0, len, '-');
    let ghost release = release_part(version@);
    assert(release =~= chars@.subrange(0, end as int));

    let mut numbers: [u32; 3] = [0, 0, 0];
    let mut n: usize = 0;
    let mut from: usize = 0;
    let mut more: bool = true;
    assert(release =~= chars@.subrange(from as int, end as int));
    while n < 3
        invariant
            n <= 3,
            from <= end <= chars@.len(),
            release == chars@.subrange(0, end as int),
            release == release_part(version@),
            forall|k: nat| k < n ==> #[trigger] numbers[k as int] == version_number(version@, k),
            more ==> forall|k: nat|
                n <= k ==> #[trigger] dotted_field(release, k) == dotted_field(
                    chars@.subrange(from as int, end as int),
                    (k - n) as nat,
                ),
            !more ==> forall|k: nat| n <= k ==> #[trigger] dotted_field(release, k) is None,
        decreases 3 - n,
    {
        assert(dotted_field(release, n as nat) == dotted_field(release, n as nat));
        if more {
            let ghost rest = chars@.subrange(from as int, end as int);
            let stop = find_char(&chars, from, end, '.');
            assert(rest.take(stop - from) =~= chars@.subrange(from as int, stop as int));
            assert(dotted_field(rest, 0) == Some(rest.take(stop - from)));
            numbers[n] = field_number(&chars, from, stop);
            assert(numbers[n as int] == version_number(version@, n as nat));
            if stop < end {
                proof {
                    let after = chars@.subrange(stop + 1, end as int);
                    assert(rest.skip(stop - from + 1) =~= after);
                    assert forall|k: nat| n + 1 <= k implies #[trigger] dotted_field(release, k)
                        == dotted_field(after, (k - (n + 1)) as nat) by {
                        assert(dotted_field(release, k) == dotted_field(rest, (k - n) as nat));
                    }
                }
                from = stop + 1;
            } else {
                proof {
                    assert forall|k: nat| n + 1 <= k implies #[trigger] dotted_field(
                        release,
                        k,
                    ) is None by {
                        assert(dotted_field(release, k) == dotted_field(rest, (k - n) as nat));
                    }
                }
                more = false;
            }
        } else {
            numbers[n] = 0;
        }
        n += 1;
    }
    let major = pack_bcd_version(numbers[0], 4);
    let minor = pack_bcd_version(numbers[1], 2);
    let patch = pack_bcd_version(numbers[2], 2);
    proof {
        lemma_bcd_bound(numbers[0] as int, 4);
        lemma_bcd_bound(numbers[1] as int, 2);
        lemma_bcd_bound(numbers[2] as int, 2);
        assert(power(16, 4) == 0x1_0000) by {
            reveal_with_fuel(power, 5);
        }
        assert(power(16, 2) == 0x100) by {
            reveal_with_fuel(power, 3);
        }
        assert(numbers[0] == version_number(version@, 0));
        assert(numbers[1] == version_number(version@, 1));
        assert(numbers[2] == version_number(version@, 2));
    }
    major * 0x1_0000 + minor * 0x100 + patch
}

/// Packing keeps the last `digits` decimal digits of a number.
pub proof fn packing_keeps_the_last_digits(value: int, digits: nat)
    requires
        0 <= value,
    ensures
        bcd_decoded(bcd(value, digits), digits) == value % power(10, digits),
        0 < power(10, digits),
    decreases digits,
{
    if digits > 0 {
        let fewer = (digits - 1) as nat;
        let rest = bcd(value / 10, fewer);
        packing_keeps_the_last_digits(value / 10, fewer);
        assert(bcd(value, digits) % 16 == value % 10);
        assert(bcd(value, digits) / 16 == rest);
        vstd::arithmetic::div_mod::lemma_mod_breakdown(value, 10, power(10, fewer));
    }
}

proof fn lemma_version_number_bound(version: Seq<char>, n: nat)
    ensures
        0 <= version_number(version, n) <= u32::MAX,
{
    if let Some(field) = dotted_field(release_part(version), n) {
        let digits = if field.len() > 0 && field[0] == '+' {
            field.drop_first()
        } else {
            field
        };
        if digits_number(digits) is Some {
            lemma_decimal_value_grows(digits, digits.len() as int);
            assert(digits.take(digits.len() as int) =~= digits);
        }
    }
}

/// A packed version tells the major number in its upper half, the minor number in the byte behind
/// it and the patch number in the last byte, each with as many decimal digits as there is room for.
pub proof fn packed_version_tells_the_numbers(version: Seq<char>)
    ensures
        0 <= packed_version(version) <= 0xFFFF_FFFF,
        bcd_decoded(packed_version(version) / 0x1_0000, 4) == version_number(version, 0) % 10000,
        bcd_decoded(packed_version(version) / 0x100 % 0x100, 2) == version_number(version, 1) % 100,
        bcd_decoded(packed_version(version) % 0x100, 2) == version_number(version, 2) % 100,
{
    lemma_version_number_bound(version, 0);
    lemma_version_number_bound(version, 1);
    lemma_version_number_bound(version, 2);
    let major = bcd(version_number(version, 0), 4);
    let minor = bcd(version_number(version, 1), 2);
    let patch = bcd(version_number(version, 2), 2);
    lemma_bcd_bound(version_number(version, 0), 4);
    lemma_bcd_bound(version_number(version, 1), 2);
    lemma_bcd_bound(version_number(version, 2), 2);
    assert(power(16, 4) == 0x1_0000 && power(16, 2) == 0x100) by {
        reveal_with_fuel(power, 5);
    }
    packing_keeps_the_last_digits(version_number(version, 0), 4);
    packing_keeps_the_last_digits(version_number(version, 1), 2);
    packing_keeps_the_last_digits(version_number(version, 2), 2);
    assert(power(10, 4) == 10000 && power(10, 2) == 100) by {
        reveal_with_fuel(power, 5);
    }
    lemma_parts(major, minor, patch);
}

proof fn lemma_parts(major: int, minor: int, patch: int)
    requires
        0 <= major < 0x1_0000,
        0 <= minor < 0x100,
        0 <= patch < 0x100,
    ensures
        ({
            let packed = major * 0x1_0000 + minor * 0x100 + patch;
            &&& 0 <= packed <= 0xFFFF_FFFF
            &&& packed / 0x1_0000 == major
            &&& packed / 0x100 % 0x100 == minor
            &&& packed % 0x100 == patch
        }),
{
    let packed = major * 0x1_0000 + minor * 0x100 + patch;
    assert(packed / 0x100 == major * 0x100 + minor);
}

proof fn lemma_find_in_front(s: Seq<char>, rest: Seq<char>, c: char)
    requires
        !s.contains(c),
    ensures
        find(s + rest, c) == s.len() + find(rest, c),
        find(s, c) == s.len(),
    decreases s.len(),
{
    if s.len() == 0 {
        assert(s + rest =~= rest);
    } else {
        let tail = s.drop_first();
        assert(s[0] != c);
        if tail.contains(c) {
            let i = choose|i: int| 0 <= i < tail.len() && tail[i] == c;
            assert(s[i + 1] == c);
        }
        lemma_find_in_front(tail, rest, c);
        assert((s + rest).drop_first() =~= tail + rest);
    }
}

/// What stands behind a dash in a version, and the dash itself, changes none of its numbers.
pub proof fn tag_does_not_count(release: Seq<char>, tag: Seq<char>, n: nat)
    requires
        !release.contains('-'),
    ensures
        version_number(release + seq!['-'] + tag, n) == version_number(release, n),
{
    let all = release + seq!['-'] + tag;
    let behind = seq!['-'] + tag;
    lemma_find_in_front(release, behind, '-');
    assert(all =~= release + behind);
    assert(behind[0] == '-');
    assert(find(behind, '-') == 0);
    assert(all.take(release.len() as int) =~= release);
    assert(release.take(release.len() as int) =~= release);
}

/// The numbers of a version stand between dots: the first one in front of the first dot, and
/// those behind it follow. Where there is no dot, there is only the first one.
pub proof fn numbers_stand_between_dots(first: Seq<char>, rest: Seq<char>, n: nat)
    requires
        !first.contains('.'),
        !first.contains('-'),
    ensures
        version_number(first + seq!['.'] + rest, 0) == version_number(first, 0),
        version_number(first + seq!['.'] + rest, n + 1) == version_number(rest, n),
        version_number(first, n + 1) == 0,
        version_number(first, 0) == match parsed_number(first) {
            Some(number) => number,
            None => 0,
        },
{
    let all = first + seq!['.'] + rest;
    let behind = seq!['.'] + rest;
    lemma_find_in_front(first, behind, '-');
    lemma_find_in_front(first, rest, '-');
    lemma_find_in_front(first, behind, '.');
    assert(all =~= first + behind);
    assert(behind.drop_first() =~= rest);
    assert(find(behind, '-') == 1 + find(rest, '-'));
    lemma_find_bounds(rest, '-');
    let release = release_part(all);
    let rest_release = release_part(rest);
    assert(release =~= first + seq!['.'] + rest_release);
    assert(release_part(first) =~= first);
    let tail = seq!['.'] + rest_release;
    assert(release =~= first + tail);
    lemma_find_in_front(first, tail, '.');
    assert(tail[0] == '.');
    assert(find(tail, '.') == 0);
    assert(release.take(first.len() as int) =~= first);
    assert(first.take(first.len() as int) =~= first);
    assert(release.skip(first.len() as int + 1) =~= rest_release);
}

/// A number is at least one decimal digit, and each digit behind it makes it ten times as large
/// and adds its own value. A plus sign may stand in front. Anything else, and what has no room in
/// 32 bits, is no number.
pub proof fn numbers_are_decimal(digits: Seq<char>, digit: char)
    requires
        forall|i: int| 0 <= i < digits.len() ==> '0' <= (#[trigger] digits[i]) <= '9',
    ensures
        parsed_number(Seq::<char>::empty()) is None,
        parsed_number(seq!['+']) is None,
        '0' <= digit <= '9' ==> parsed_number(seq![digit]) == Some(digit as int - '0' as int),
        parsed_number(seq!['+'] + digits) == parsed_number(digits),
        !('0' <= digit <= '9') && digits.len() > 0 ==> parsed_number(digits.push(digit)) is None,
        '0' <= digit <= '9' ==> (parsed_number(digits) matches Some(number) ==> parsed_number(
            digits.push(digit),
        ) == if 10 * number + (digit as int - '0' as int) <= 0xFFFF_FFFF {
            Some(10 * number + (digit as int - '0' as int))
        } else {
            None
        }),
{
    let longer = digits.push(digit);
    assert(longer.drop_last() =~= digits);
    assert(longer.last() == digit);
    assert((seq!['+'] + digits).drop_first() =~= digits);
    assert(seq!['+'].drop_first() =~= Seq::<char>::empty());
    if digits.len() > 0 {
        assert(longer[0] == digits[0]);
        assert(digits[0] != '+');
    }
    let one = seq![digit];
    if '0' <= digit <= '9' {
        assert(decimal_value(one.drop_last()) == 0) by {
            assert(one.drop_last().len() == 0);
        }
        assert(one.last() == digit);
        assert forall|i: int| 0 <= i < longer.len() implies is_digit(#[trigger] longer[i]) by {
            if i < digits.len() {
                assert(longer[i] == digits[i]);
            }
        }
    } else {
        assert(!is_digit(longer[digits.len() as int]));
    }
    assert((seq!['+'] + digits)[0] == '+');
}

} // verus!
