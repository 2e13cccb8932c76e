use vstd::prelude::*;

verus! {

/// The ASCII digit that writes `d`, for `d` from 0 to 9.
pub open spec fn digit_char(d: int) -> char {
    if d == 0 {
        '0'
    } else if d == 1 {
        '1'
    } else if d == 2 {
        '2'
    } else if d == 3 {
        '3'
    } else if d == 4 {
        '4'
    } else if d == 5 {
        '5'
    } else if d == 6 {
        '6'
    } else if d == 7 {
        '7'
    } else if d == 8 {
        '8'
    } else {
        '9'
    }
}

/// Whether `c` is an ASCII decimal digit.
pub open spec fn is_digit(c: char) -> bool {
    '0' <= c <= '9'
}

/// The value of the ASCII digit `c`.
pub open spec fn digit_value(c: char) -> int {
    if c == '0' {
        0
    } else if c == '1' {
        1
    } else if c == '2' {
        2
    } else if c == '3' {
        3
    } else if c == '4' {
        4
    } else if c == '5' {
        5
    } else if c == '6' {
        6
    } else if c == '7' {
        7
    } else if c == '8' {
        8
    } else {
        9
    }
}

/// Decimal text of a non-negative integer, most significant digit first, with no leading zero:
/// what `u64`'s `Display` writes.
pub open spec fn decimal_text(value: int) -> Seq<char>
    decreases value,
{
    if value < 10 {
        seq![digit_char(value)]
    } else {
        decimal_text(value / 10).push(digit_char(value % 10))
    }
}

/// Decimal text of a signed integer: a minus sign before the digits of a negative value, as the
/// `Display` of the signed integer types writes it.
pub open spec fn signed_text(value: int) -> Seq<char> {
    if value < 0 {
        seq!['-'] + decimal_text(-value)
    } else {
        decimal_text(value)
    }
}

/// `count` zeros.
pub open spec fn zeros(count: int) -> Seq<char> {
    Seq::new(if count > 0 { count as nat } else { 0 }, |_i: int| '0')
}

/// `digits` preceded by as many zeros as bring it to `width` characters.
pub open spec fn zero_padded(digits: Seq<char>, width: int) -> Seq<char> {
    zeros(width - digits.len()) + digits
}

/// A signed integer written with sign-aware zero padding to `width` characters, the sign
/// counting toward the width, as the `{:0width}` format writes it.
pub open spec fn padded_signed_text(value: int, width: int) -> Seq<char> {
    if value < 0 {
        seq!['-'] + zero_padded(decimal_text(-value), width - 1)
    } else {
        zero_padded(decimal_text(value), width)
    }
}

/// Whether every character of `s` is an ASCII decimal digit.
pub open spec fn all_digits(s: Seq<char>) -> bool {
    forall|i: int| 0 <= i < s.len() ==> is_digit(#[trigger] s[i])
}

/// The value of a run of decimal digits, most significant first; 0 for an empty run.
pub open spec fn digits_value(s: Seq<char>) -> int
    decreases s.len(),
{
    if s.len() == 0 {
        0
    } else {
        digits_value(s.drop_last()) * 10 + digit_value(s.last())
    }
}

/// The digits of an unsigned numeral: the text after an optional leading `+`.
pub open spec fn unsigned_digits(text: Seq<char>) -> Seq<char> {
    if text.len() > 0 && text[0] == '+' {
        text.drop_first()
    } else {
        text
    }
}

/// The value that an unsigned integer type's `FromStr` reads from `text`, if it reads one at
/// most `limit`: an optional `+`, then one or more ASCII digits.
pub open spec fn parsed_unsigned(text: Seq<char>, limit: int) -> Option<int> {
    let digits = unsigned_digits(text);
    if digits.len() > 0 && all_digits(digits) && digits_value(digits) <= limit {
        Some(digits_value(digits))
    } else {
        None
    }
}

/// The value that a signed integer type's `FromStr` reads from `text`, if it reads one in
/// `[-magnitude_limit, limit]`: an optional `+` or `-`, then one or more ASCII digits.
pub open spec fn parsed_signed(text: Seq<char>, magnitude_limit: int, limit: int) -> Option<int> {
    if text.len() > 0 && text[0] == '-' {
        let digits = text.drop_first();
        if digits.len() > 0 && all_digits(digits) && digits_value(digits) <= magnitude_limit {
            Some(-digits_value(digits))
        } else {
            None
        }
    } else {
        parsed_unsigned(text, limit)
    }
}

/// What `u8`'s `FromStr` reads from `text`.
pub open spec fn parsed_u8(text: Seq<char>) -> Option<int> {
    parsed_unsigned(text, 255)
}

/// What `i32`'s `FromStr` reads from `text`.
pub open spec fn parsed_i32(text: Seq<char>) -> Option<int> {
    parsed_signed(text, 2_147_483_648, 2_147_483_647)
}

pub proof fn lemma_digit_char(d: int)
    requires
        0 <= d < 10,
    ensures
        is_digit(digit_char(d)),
        digit_value(digit_char(d)) == d,
        digit_char(d) != '-',
        digit_char(d) != '+',
        digit_char(d) != ':',
{
}

/// The decimal text of a value is a non-empty run of digits that reads back as the value, and
/// it starts with no sign.
pub proof fn lemma_decimal_text(value: int)
    requires
        value >= 0,
    ensures
        decimal_text(value).len() > 0,
        all_digits(decimal_text(value)),
        digits_value(decimal_text(value)) == value,
    decreases value,
{
    if value < 10 {
        lemma_digit_char(value);
        assert(decimal_text(value).drop_last() =~= Seq::<char>::empty());
        assert(digits_value(Seq::<char>::empty()) == 0);
    } else {
        lemma_decimal_text(value / 10);
        lemma_digit_char(value % 10);
        let t = decimal_text(value);
        assert(t.drop_last() =~= decimal_text(value / 10));
        assert(t.last() == digit_char(value % 10));
        assert(digits_value(t) == (value / 10) * 10 + value % 10);
        assert forall|i: int| 0 <= i < t.len() implies is_digit(#[trigger] t[i]) by {
            if i < t.len() - 1 {
                assert(t[i] == decimal_text(value / 10)[i]);
            }
        }
    }
}

pub proof fn lemma_digits_value_nonnegative(s: Seq<char>)
    ensures
        digits_value(s) >= 0,
    decreases s.len(),
{
    if s.len() > 0 {
        lemma_digits_value_nonnegative(s.drop_last());
    }
}

/// Extending a run of digits never lowers its value.
pub proof fn lemma_digits_prefix(s: Seq<char>, k: int)
    requires
        all_digits(s),
        0 <= k <= s.len(),
    ensures
        digits_value(s.take(k)) <= digits_value(s),
    decreases s.len(),
{
    if k < s.len() {
        let shorter = s.drop_last();
        assert(all_digits(shorter)) by {
            assert forall|i: int| 0 <= i < shorter.len() implies is_digit(#[trigger] shorter[i]) by {
                assert(shorter[i] == s[i]);
            }
        }
        lemma_digits_prefix(shorter, k);
        assert(shorter.take(k) =~= s.take(k));
        lemma_digits_value_nonnegative(shorter);
        assert(is_digit(s[s.len() - 1]));
    } else {
        assert(s.take(k) =~= s);
    }
}

/// Leading zeros do not change the value of a run of digits.
pub proof fn lemma_leading_zeros(count: int, s: Seq<char>)
    ensures
        digits_value(zeros(count) + s) == digits_value(s),
    decreases s.len(),
{
    if s.len() == 0 {
        lemma_zeros_value(count);
        assert(zeros(count) + s =~= zeros(count));
    } else {
        lemma_leading_zeros(count, s.drop_last());
        assert((zeros(count) + s).drop_last() =~= zeros(count) + s.drop_last());
    }
}

pub proof fn lemma_zeros_value(count: int)
    ensures
        digits_value(zeros(count)) == 0,
    decreases count,
{
    if count > 0 {
        lemma_zeros_value(count - 1);
        assert(zeros(count).drop_last() =~= zeros(count - 1));
    }
}

pub proof fn lemma_zeros_are_digits(count: int)
    ensures
        all_digits(zeros(count)),
        forall|i: int| 0 <= i < zeros(count).len() ==> #[trigger] zeros(count)[i] == '0',
{
}

/// A zero-padded decimal text is a non-empty run of digits that reads back as the value.
pub proof fn lemma_zero_padded(value: int, width: int)
    requires
        value >= 0,
    ensures
        zero_padded(decimal_text(value), width).len() > 0,
        all_digits(zero_padded(decimal_text(value), width)),
        digits_value(zero_padded(decimal_text(value), width)) == value,
        zero_padded(decimal_text(value), width)[0] != '+',
        zero_padded(decimal_text(value), width)[0] != '-',
{
    let t = decimal_text(value);
    lemma_decimal_text(value);
    lemma_leading_zeros(width - t.len(), t);
    lemma_zeros_are_digits(width - t.len());
    let p = zero_padded(t, width);
    assert forall|i: int| 0 <= i < p.len() implies is_digit(#[trigger] p[i]) by {
        if i >= zeros(width - t.len()).len() {
            assert(p[i] == t[i - zeros(width - t.len()).len()]);
        }
    }
    assert(is_digit(p[0]));
}

/// Writes a digit, 0 to 9.
fn digit_text(d: u64) -> (r: &'static str)
    requires
        d < 10,
    ensures
        r@ == seq![digit_char(d as int)],
{
    proof {
        reveal_strlit("0");
        reveal_strlit("1");
        reveal_strlit("2");
        reveal_strlit("3");
        reveal_strlit("4");
        reveal_strlit("5");
        reveal_strlit("6");
        reveal_strlit("7");
        reveal_strlit("8");
        reveal_strlit("9");
    }
    if d == 0 {
        "0"
    } else if d == 1 {
        "1"
    } else if d == 2 {
        "2"
    } else if d == 3 {
        "3"
    } else if d == 4 {
        "4"
    } else if d == 5 {
        "5"
    } else if d == 6 {
        "6"
    } else if d == 7 {
        "7"
    } else if d == 8 {
        "8"
    } else {
        "9"
    }
}

/// Writes `value` in decimal, as `u64`'s `Display` does.
pub fn format_decimal(value: u64) -> (r: String)
    ensures
        r@ == decimal_text(value as int),
    decreases value,
{
    if value < 10 {
        digit_text(value).to_owned()
    } else {
        let mut text = format_decimal(value / 10);
        text.append(digit_text(value % 10));
        text
    }
}

/// Writes `value` in decimal with a leading minus sign when it is negative.
pub fn format_signed(value: i32) -> (r: String)
    ensures
        r@ == signed_text(value as int),
{
    if value < 0 {
        let magnitude: i64 = -(value as i64);
        let mut text = "-".to_owned();
        proof { reveal_strlit("-"); }
        text.append(format_decimal(magnitude as u64).as_str());
        text
    } else {
        format_decimal(value as u64)
    }
}

/// Prepends zeros to `digits` until it is `width` characters long.
fn pad_with_zeros(digits: String, width: usize) -> (r: String)
    ensures
        r@ == zero_padded(digits@, width as int),
{
    let length = digits.unicode_len();
    let mut text = String::new();
    let mut i: usize = length;
    proof { reveal_strlit("0"); }
    while i < width
        invariant
            length == digits@.len(),
            length <= i <= width || (i == length && length >= width),
            text@ == zeros(i - length),
        decreases width - i,
    {
        proof { reveal_strlit("0"); }
        text.append("0");
        assert(text@ =~= zeros(i + 1 - length));
        i += 1;
    }
    assert(text@ =~= zeros(width - length));
    text.append(digits.as_str());
    text
}

/// Writes `value` with sign-aware zero padding to `width` characters, as `{:0width}` does.
pub fn format_padded(value: i32, width: usize) -> (r: String)
    requires
        width >= 1,
    ensures
        r@ == padded_signed_text(value as int, width as int),
{
    if value < 0 {
        let magnitude: i64 = -(value as i64);
        let mut text = "-".to_owned();
        proof { reveal_strlit("-"); }
        let digits = pad_with_zeros(format_decimal(magnitude as u64), width - 1);
        text.append(digits.as_str());
        text
    } else {
        pad_with_zeros(format_decimal(value as u64), width)
    }
}

/// The value of the ASCII digit `c`, if it is one.
fn read_digit(c: char) -> (r: Option<u64>)
    ensures
        r is Some <==> is_digit(c),
        r matches Some(d) ==> d == digit_value(c) && d < 10,
{
    if c == '0' {
        Some(0)
    } else if c == '1' {
        Some(1)
    } else if c == '2' {
        Some(2)
    } else if c == '3' {
        Some(3)
    } else if c == '4' {
        Some(4)
    } else if c == '5' {
        Some(5)
    } else if c == '6' {
        Some(6)
    } else if c == '7' {
        Some(7)
    } else if c == '8' {
        Some(8)
    } else if c == '9' {
        Some(9)
    } else {
        None
    }
}

/// Reads the characters `start..end` of `text` as a run of decimal digits whose value is at
/// most `limit`.
fn read_digits(text: &str, start: usize, end: usize, limit: u64) -> (r: Option<u64>)
    requires
        start <= end <= text@.len(),
        limit <= 0x1_0000_0000,
    ensures
        r is Some <==> ({
            let digits = text@.subrange(start as int, end as int);
            digits.len() > 0 && all_digits(digits) && digits_value(digits) <= limit
        }),
        r matches Some(v) ==> v == digits_value(text@.subrange(start as int, end as int)) && v <= limit,
{
    let ghost whole = text@.subrange(start as int, end as int);
    if start == end {
        return None;
    }
    let mut value: u64 = 0;
    let mut i: usize = start;
    assert(text@.subrange(start as int, start as int) =~= Seq::<char>::empty());
    while i < end
        invariant
            start <= i <= end <= text@.len(),
            limit <= 0x1_0000_0000,
            whole == text@.subrange(start as int, end as int),
            all_digits(text@.subrange(start as int, i as int)),
            value == digits_value(text@.subrange(start as int, i as int)),
            value <= limit,
        decreases end - i,
    {
        let c = text.get_char(i);
        let ghost before = text@.subrange(start as int, i as int);
        let ghost after = text@.subrange(start as int, i + 1);
        assert(after.drop_last() =~= before);
        assert(after.last() == c);
        assert(whole[i - start] == c);
        match read_digit(c) {
            None => {
                return None;
            },
            Some(d) => {
                assert(all_digits(after)) by {
                    assert forall|j: int| 0 <= j < after.len() implies is_digit(#[trigger] after[j]) by {
                        if j < before.len() {
                            assert(after[j] == before[j]);
                        }
                    }
                }
                let next = value * 10 + d;
                if next > limit {
                    proof {
                        if all_digits(whole) {
                            lemma_digits_prefix(whole, i + 1 - start);
                            assert(whole.take(i + 1 - start) =~= after);
                        }
                    }
                    return None;
                }
                value = next;
                i += 1;
            },
        }
    }
    Some(value)
}

/// Reads `text[start..end]` as `u8`'s `FromStr` does.
pub fn read_u8(text: &str, start: usize, end: usize) -> (r: Option<u8>)
    requires
        start <= end <= text@.len(),
    ensures
        r matches Some(v) ==> parsed_u8(text@.subrange(start as int, end as int)) == Some(v as int),
        r is None ==> parsed_u8(text@.subrange(start as int, end as int)) is None,
{
    let ghost field = text@.subrange(start as int, end as int);
    let mut from = start;
    if start < end && text.get_char(start) == '+' {
        assert(field.drop_first() =~= text@.subrange(start + 1, end as int));
        from = start + 1;
    }
    assert(unsigned_digits(field) =~= text@.subrange(from as int, end as int));
    match read_digits(text, from, end, 255) {
        Some(v) => Some(v as u8),
        None => None,
    }
}

/// Reads `text[start..end]` as `i32`'s `FromStr` does.
pub fn read_i32(text: &str, start: usize, end: usize) -> (r: Option<i32>)
    requires
        start <= end <= text@.len(),
    ensures
        r matches Some(v) ==> parsed_i32(text@.subrange(start as int, end as int)) == Some(v as int),
        r is None ==> parsed_i32(text@.subrange(start as int, end as int)) is None,
{
    let ghost field = text@.subrange(start as int, end as int);
    if start < end && text.get_char(start) == '-' {
        assert(field.drop_first() =~= text@.subrange(start + 1, end as int));
        match read_digits(text, start + 1, end, 2_147_483_648) {
            Some(m) => {
                let v: i64 = 0 - (m as i64);
                Some(v as i32)
            },
            None => None,
        }
    } else {
        let mut from = start;
        if start < end && text.get_char(start) == '+' {
            assert(field.drop_first() =~= text@.subrange(start + 1, end as int));
            from = start + 1;
        }
        assert(unsigned_digits(field) =~= text@.subrange(from as int, end as int));
        match read_digits(text, from, end, 2_147_483_647) {
            Some(v) => Some(v as i32),
            None => None,
        }
    }
}

} // verus!
