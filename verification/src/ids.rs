use vstd::prelude::*;

use crate::copy::DeepCopy;
use crate::decimal::{digit_char, digit_value, is_digit};
use vstd::arithmetic::div_mod::{lemma_basic_div, lemma_div_denominator, lemma_fundamental_div_mod};
use vstd::arithmetic::power::{lemma_pow0, lemma_pow_positive, pow};

verus! {

/// Whether `c` is a Unicode `White_Space` character, the class that `char::is_whitespace`
/// and `str::trim` use.
pub open spec fn is_white_space(c: char) -> bool {
    ||| '\t' <= c <= '\r'
    ||| c == ' '
    ||| c == '\u{85}'
    ||| c == '\u{a0}'
    ||| c == '\u{1680}'
    ||| '\u{2000}' <= c <= '\u{200a}'
    ||| c == '\u{2028}'
    ||| c == '\u{2029}'
    ||| c == '\u{202f}'
    ||| c == '\u{205f}'
    ||| c == '\u{3000}'
}

/// A text is blank when trimming it leaves nothing: every character is white space.
pub open spec fn is_blank(s: Seq<char>) -> bool {
    forall|i: int| 0 <= i < s.len() ==> is_white_space(#[trigger] s[i])
}

pub fn char_is_white_space(c: char) -> (r: bool)
    ensures
        r == is_white_space(c),
{
    ('\t' <= c && c <= '\r') || c == ' ' || c == '\u{85}' || c == '\u{a0}' || c == '\u{1680}'
        || ('\u{2000}' <= c && c <= '\u{200a}') || c == '\u{2028}' || c == '\u{2029}'
        || c == '\u{202f}' || c == '\u{205f}' || c == '\u{3000}'
}

/// Whether `s.trim().is_empty()` holds.
pub fn text_is_blank(s: &str) -> (r: bool)
    ensures
        r == is_blank(s@),
{
    let n = s.unicode_len();
    let mut i: usize = 0;
    while i < n
        invariant
            n == s@.len(),
            i <= n,
            forall|j: int| 0 <= j < i ==> is_white_space(#[trigger] s@[j]),
        decreases n - i,
    {
        let c = s.get_char(i);
        if !char_is_white_space(c) {
            return false;
        }
        i += 1;
    }
    true
}

/// Two texts are equal character by character.
pub fn text_equals(a: &str, b: &str) -> (r: bool)
    ensures
        r == (a@ == b@),
{
    let n = a.unicode_len();
    if n != b.unicode_len() {
        return false;
    }
    let mut i: usize = 0;
    while i < n
        invariant
            n == a@.len(),
            n == b@.len(),
            i <= n,
            forall|j: int| 0 <= j < i ==> a@[j] == b@[j],
        decreases n - i,
    {
        if a.get_char(i) != b.get_char(i) {
            return false;
        }
        i += 1;
    }
    assert(a@ =~= b@);
    true
}

/// Error raised when a textual identifier would be blank.
#[derive(Clone, Copy, Debug, PartialEq, Eq, Structural)]
pub enum IdentifierError {
    Empty,
}

/// Error raised by revision construction and advancement.
#[derive(Clone, Copy, Debug, PartialEq, Eq, Structural)]
pub enum RevisionError {
    Zero,
    Overflow,
}

/// Error raised by schema-version construction.
#[derive(Clone, Copy, Debug, PartialEq, Eq, Structural)]
pub enum SchemaVersionError {
    Zero,
}

/// Error raised when a text is not a UUID.
#[derive(Clone, Copy, Debug, PartialEq, Eq, Structural)]
pub enum UuidParseError {
    Invalid,
}

/// The lowercase hexadecimal digit for `d`, 0 to 15.
pub open spec fn hex_digit(d: int) -> char {
    if d < 10 {
        digit_char(d)
    } else if d == 10 {
        'a'
    } else if d == 11 {
        'b'
    } else if d == 12 {
        'c'
    } else if d == 13 {
        'd'
    } else if d == 14 {
        'e'
    } else {
        'f'
    }
}

/// The value of a hexadecimal digit of either case, if `c` is one.
pub open spec fn hex_value(c: char) -> Option<int> {
    if is_digit(c) {
        Some(digit_value(c))
    } else if c == 'a' || c == 'A' {
        Some(10)
    } else if c == 'b' || c == 'B' {
        Some(11)
    } else if c == 'c' || c == 'C' {
        Some(12)
    } else if c == 'd' || c == 'D' {
        Some(13)
    } else if c == 'e' || c == 'E' {
        Some(14)
    } else if c == 'f' || c == 'F' {
        Some(15)
    } else {
        None
    }
}

/// Whether every character of `s` is a hexadecimal digit.
pub open spec fn all_hex(s: Seq<char>) -> bool {
    forall|i: int| 0 <= i < s.len() ==> (#[trigger] hex_value(s[i])) is Some
}

/// The value of a run of hexadecimal digits, most significant first.
pub open spec fn hex_run_value(s: Seq<char>) -> int
    decreases s.len(),
{
    if s.len() == 0 {
        0
    } else {
        hex_run_value(s.drop_last()) * 16 + match hex_value(s.last()) {
            Some(d) => d,
            None => 0,
        }
    }
}

/// The `i`-th of the 32 hexadecimal digits of a 128-bit value, most significant first.
pub open spec fn nibble(value: u128, i: int) -> int {
    (value as int / pow(16, (31 - i) as nat)) % 16
}

/// The 32 lowercase hexadecimal digits of a 128-bit value, most significant first.
pub open spec fn hex_digits(value: u128) -> Seq<char> {
    Seq::new(32, |i: int| hex_digit(nibble(value, i)))
}

/// 32 digits in groups of 8, 4, 4, 4 and 12, joined by hyphens.
pub open spec fn hyphenated(digits: Seq<char>) -> Seq<char> {
    digits.subrange(0, 8) + seq!['-'] + digits.subrange(8, 12) + seq!['-'] + digits.subrange(12, 16)
        + seq!['-'] + digits.subrange(16, 20) + seq!['-'] + digits.subrange(20, 32)
}

/// The 32 digits of a 36-character hyphenated form, without its hyphens.
pub open spec fn unhyphenated(s: Seq<char>) -> Seq<char> {
    s.subrange(0, 8) + s.subrange(9, 13) + s.subrange(14, 18) + s.subrange(19, 23) + s.subrange(24, 36)
}

/// The value of a hyphenated form: hyphens at positions 8, 13, 18 and 23, hexadecimal digits
/// of either case everywhere else.
pub open spec fn parsed_hyphenated(s: Seq<char>) -> Option<u128> {
    if s.len() == 36 && s[8] == '-' && s[13] == '-' && s[18] == '-' && s[23] == '-' && all_hex(
        unhyphenated(s),
    ) {
        Some(hex_run_value(unhyphenated(s)) as u128)
    } else {
        None
    }
}

/// ASCII lowercase of `c`.
pub open spec fn ascii_lowercase(c: char) -> char {
    if 'A' <= c <= 'Z' {
        ((c as int) + 32) as char
    } else {
        c
    }
}

/// Whether `s` is `urn:uuid:` in any ASCII case.
pub open spec fn is_urn_prefix(s: Seq<char>) -> bool {
    s.len() == 9 && Seq::new(9, |i: int| ascii_lowercase(s[i])) == seq!['u', 'r', 'n', ':', 'u', 'u', 'i', 'd', ':']
}

/// The 128-bit value that `uuid::Uuid::parse_str` reads from a text: 32 hexadecimal digits,
/// the hyphenated form, that form in braces, or that form after `urn:uuid:` in any case; `None`
/// for every other text. (The parser works on bytes; every text it accepts is ASCII, where bytes
/// and characters coincide.)
pub closed spec fn uuid_parsed(text: Seq<char>) -> Option<u128> {
    if text.len() == 32 {
        if all_hex(text) {
            Some(hex_run_value(text) as u128)
        } else {
            None
        }
    } else if text.len() == 36 {
        parsed_hyphenated(text)
    } else if text.len() == 38 && text[0] == '{' && text[37] == '}' {
        parsed_hyphenated(text.subrange(1, 37))
    } else if text.len() == 45 && is_urn_prefix(text.take(9)) {
        parsed_hyphenated(text.skip(9))
    } else {
        None
    }
}

/// The form that `uuid::Uuid` displays for a 128-bit value: its 32 lowercase hexadecimal
/// digits, hyphenated.
pub closed spec fn uuid_text(value: u128) -> Seq<char> {
    hyphenated(hex_digits(value))
}

proof fn lemma_hex_digit(d: int)
    requires
        0 <= d < 16,
    ensures
        hex_value(hex_digit(d)) == Some(d),
        hex_digit(d) != '-',
{
}

/// The first `k` digits of a value read back as the value without its last `32 - k` digits.
proof fn lemma_hex_digits_value(value: u128, k: int)
    requires
        0 <= k <= 32,
    ensures
        all_hex(hex_digits(value).take(k)),
        hex_run_value(hex_digits(value).take(k)) == value as int / pow(16, (32 - k) as nat),
    decreases k,
{
    let d = hex_digits(value);
    if k == 0 {
        assert(d.take(0) =~= Seq::<char>::empty());
        reveal_with_fuel(pow, 33);
        assert(pow(16, 32) == 0x1_0000_0000_0000_0000_0000_0000_0000_0000int);
        lemma_basic_div(value as int, pow(16, 32));
    } else {
        lemma_hex_digits_value(value, k - 1);
        let prev = d.take(k - 1);
        let cur = d.take(k);
        assert(cur.drop_last() =~= prev);
        let e = (32 - k) as nat;
        assert(cur.last() == hex_digit(nibble(value, k - 1)));
        assert((31 - (k - 1)) as nat == e);
        lemma_pow_positive(16, e);
        assert(pow(16, e + 1) == 16 * pow(16, e)) by {
            reveal(pow);
        }
        assert((32 - (k - 1)) as nat == e + 1);
        let q = value as int / pow(16, e);
        lemma_div_denominator(value as int, pow(16, e), 16);
        lemma_fundamental_div_mod(q, 16);
        lemma_hex_digit(q % 16);
        assert(all_hex(cur)) by {
            assert forall|i: int| 0 <= i < cur.len() implies (#[trigger] hex_value(cur[i])) is Some by {
                if i < k - 1 {
                    assert(cur[i] == prev[i]);
                }
            }
        }
    }
}

/// The displayed form of a value is read back as the value.
pub proof fn lemma_uuid_text_reads_back(value: u128)
    ensures
        uuid_parsed(uuid_text(value)) == Some(value),
{
    let d = hex_digits(value);
    lemma_hex_digits_value(value, 32);
    assert(d.take(32) =~= d);
    lemma_pow0(16);
    let t = uuid_text(value);
    assert(unhyphenated(t) =~= d);
}

/// Whether a 128-bit value carries the version-4 and RFC variant bits of a random UUID.
pub open spec fn is_random_uuid(value: u128) -> bool {
    value & 0xF000_C000_0000_0000_0000u128 == 0x4000_8000_0000_0000_0000u128
}

/// Calls `uuid::Uuid::new_v4`. Its source masks random bits so that the version nibble is 4 and
/// the variant bits are `10`; nothing else about the value is promised.
#[verifier::external_body]
fn random_uuid() -> (r: u128)
    ensures
        is_random_uuid(r),
{
    uuid::Uuid::new_v4().as_u128()
}

/// Calls `uuid::Uuid::parse_str` and reads the result as its big-endian 128-bit value; the
/// contract states the formats the crate's parser accepts.
#[verifier::external_body]
fn parse_uuid(text: &str) -> (r: Option<u128>)
    ensures
        r == uuid_parsed(text@),
{
    match uuid::Uuid::parse_str(text) {
        Ok(value) => Some(value.as_u128()),
        Err(_) => None,
    }
}

/// Calls `uuid::Uuid::from_u128` and formats the result with `to_string`, which writes the
/// lowercase hyphenated form of the value's big-endian hexadecimal digits.
#[verifier::external_body]
fn format_uuid(value: u128) -> (r: String)
    ensures
        r@ == uuid_text(value),
{
    uuid::Uuid::from_u128(value).to_string()
}

/// Stable identity of a canonical library resource.
#[derive(Clone, Copy, Debug, PartialEq, Eq, Hash, PartialOrd, Ord, Structural)]
pub struct ResourceId(pub u128);

/// Identity of a chart opened in a workspace.
#[derive(Clone, Copy, Debug, PartialEq, Eq, Hash, PartialOrd, Ord, Structural)]
pub struct InstanceId(pub u128);

/// Identity of a view placed in a workspace.
#[derive(Clone, Copy, Debug, PartialEq, Eq, Hash, PartialOrd, Ord, Structural)]
pub struct ViewInstanceId(pub u128);

impl View for ResourceId {
    type V = u128;

    open spec fn view(&self) -> u128 {
        self.0
    }
}

impl View for InstanceId {
    type V = u128;

    open spec fn view(&self) -> u128 {
        self.0
    }
}

impl View for ViewInstanceId {
    type V = u128;

    open spec fn view(&self) -> u128 {
        self.0
    }
}

impl ResourceId {
    /// A fresh random identity.
    pub fn new() -> (r: Self)
        ensures
            is_random_uuid(r@),
    {
        ResourceId(random_uuid())
    }

    pub fn from_u128(value: u128) -> (r: Self)
        ensures
            r@ == value,
    {
        ResourceId(value)
    }

    pub fn as_u128(self) -> (r: u128)
        ensures
            r == self@,
    {
        self.0
    }

    pub fn parse(text: &str) -> (r: Result<Self, UuidParseError>)
        ensures
            r is Ok <==> uuid_parsed(text@) is Some,
            r matches Ok(id) ==> uuid_parsed(text@) == Some(id@),
    {
        match parse_uuid(text) {
            Some(value) => Ok(ResourceId(value)),
            None => Err(UuidParseError::Invalid),
        }
    }

    /// The identity as text; the text parses back to the identity.
    pub fn to_string(&self) -> (r: String)
        ensures
            r@ == uuid_text(self@),
            uuid_parsed(r@) == Some(self@),
    {
        proof { lemma_uuid_text_reads_back(self.0); }
        format_uuid(self.0)
    }
}

impl InstanceId {
    /// A fresh random identity.
    pub fn new() -> (r: Self)
        ensures
            is_random_uuid(r@),
    {
        InstanceId(random_uuid())
    }

    pub fn from_u128(value: u128) -> (r: Self)
        ensures
            r@ == value,
    {
        InstanceId(value)
    }

    pub fn as_u128(self) -> (r: u128)
        ensures
            r == self@,
    {
        self.0
    }

    pub fn parse(text: &str) -> (r: Result<Self, UuidParseError>)
        ensures
            r is Ok <==> uuid_parsed(text@) is Some,
            r matches Ok(id) ==> uuid_parsed(text@) == Some(id@),
    {
        match parse_uuid(text) {
            Some(value) => Ok(InstanceId(value)),
            None => Err(UuidParseError::Invalid),
        }
    }

    /// The identity as text; the text parses back to the identity.
    pub fn to_string(&self) -> (r: String)
        ensures
            r@ == uuid_text(self@),
            uuid_parsed(r@) == Some(self@),
    {
        proof { lemma_uuid_text_reads_back(self.0); }
        format_uuid(self.0)
    }
}

impl ViewInstanceId {
    /// A fresh random identity.
    pub fn new() -> (r: Self)
        ensures
            is_random_uuid(r@),
    {
        ViewInstanceId(random_uuid())
    }

    pub fn from_u128(value: u128) -> (r: Self)
        ensures
            r@ == value,
    {
        ViewInstanceId(value)
    }

    pub fn as_u128(self) -> (r: u128)
        ensures
            r == self@,
    {
        self.0
    }

    pub fn parse(text: &str) -> (r: Result<Self, UuidParseError>)
        ensures
            r is Ok <==> uuid_parsed(text@) is Some,
            r matches Ok(id) ==> uuid_parsed(text@) == Some(id@),
    {
        match parse_uuid(text) {
            Some(value) => Ok(ViewInstanceId(value)),
            None => Err(UuidParseError::Invalid),
        }
    }

    /// The identity as text; the text parses back to the identity.
    pub fn to_string(&self) -> (r: String)
        ensures
            r@ == uuid_text(self@),
            uuid_parsed(r@) == Some(self@),
    {
        proof { lemma_uuid_text_reads_back(self.0); }
        format_uuid(self.0)
    }
}

/// Identifier of a celestial point; never blank.
#[derive(Debug)]
pub struct PointId {
    value: String,
}

impl View for PointId {
    type V = Seq<char>;

    closed spec fn view(&self) -> Seq<char> {
        self.value@
    }
}

impl PointId {
    #[verifier::type_invariant]
    closed spec fn inv(self) -> bool {
        !is_blank(self.value@)
    }

    pub fn new(value: &str) -> (r: Result<Self, IdentifierError>)
        ensures
            r is Ok <==> !is_blank(value@),
            r matches Ok(id) ==> id@ == value@,
            r matches Err(e) ==> e == IdentifierError::Empty,
    {
        if text_is_blank(value) {
            return Err(IdentifierError::Empty);
        }
        Ok(PointId { value: value.to_owned() })
    }

    pub fn as_str(&self) -> (r: &str)
        ensures
            r@ == self@,
            !is_blank(r@),
    {
        proof { use_type_invariant(self); }
        self.value.as_str()
    }
}

impl Clone for PointId {
    fn clone(&self) -> (r: Self)
        ensures
            r == *self,
    {
        proof { use_type_invariant(self); }
        PointId { value: self.value.clone() }
    }
}

impl PartialEq for PointId {
    fn eq(&self, other: &Self) -> (r: bool) {
        self.value == other.value
    }
}

impl Eq for PointId {
}

impl vstd::std_specs::cmp::PartialEqSpecImpl for PointId {
    open spec fn obeys_eq_spec() -> bool {
        true
    }

    open spec fn eq_spec(&self, other: &Self) -> bool {
        self@ == other@
    }
}

/// Identifier of an aspect within an Aspect Set; never blank.
#[derive(Debug)]
pub struct AspectId {
    value: String,
}

impl View for AspectId {
    type V = Seq<char>;

    closed spec fn view(&self) -> Seq<char> {
        self.value@
    }
}

impl AspectId {
    #[verifier::type_invariant]
    closed spec fn inv(self) -> bool {
        !is_blank(self.value@)
    }

    pub fn new(value: &str) -> (r: Result<Self, IdentifierError>)
        ensures
            r is Ok <==> !is_blank(value@),
            r matches Ok(id) ==> id@ == value@,
            r matches Err(e) ==> e == IdentifierError::Empty,
    {
        if text_is_blank(value) {
            return Err(IdentifierError::Empty);
        }
        Ok(AspectId { value: value.to_owned() })
    }

    pub fn as_str(&self) -> (r: &str)
        ensures
            r@ == self@,
            !is_blank(r@),
    {
        proof { use_type_invariant(self); }
        self.value.as_str()
    }
}

impl Clone for AspectId {
    fn clone(&self) -> (r: Self)
        ensures
            r == *self,
    {
        proof { use_type_invariant(self); }
        AspectId { value: self.value.clone() }
    }
}

impl PartialEq for AspectId {
    fn eq(&self, other: &Self) -> (r: bool) {
        self.value == other.value
    }
}

impl Eq for AspectId {
}

impl vstd::std_specs::cmp::PartialEqSpecImpl for AspectId {
    open spec fn obeys_eq_spec() -> bool {
        true
    }

    open spec fn eq_spec(&self, other: &Self) -> bool {
        self@ == other@
    }
}

/// Identifier of a chart slot in a view document; never blank.
#[derive(Debug)]
pub struct ChartSlotId {
    value: String,
}

impl View for ChartSlotId {
    type V = Seq<char>;

    closed spec fn view(&self) -> Seq<char> {
        self.value@
    }
}

impl ChartSlotId {
    #[verifier::type_invariant]
    closed spec fn inv(self) -> bool {
        !is_blank(self.value@)
    }

    pub fn new(value: &str) -> (r: Result<Self, IdentifierError>)
        ensures
            r is Ok <==> !is_blank(value@),
            r matches Ok(id) ==> id@ == value@,
            r matches Err(e) ==> e == IdentifierError::Empty,
    {
        if text_is_blank(value) {
            return Err(IdentifierError::Empty);
        }
        Ok(ChartSlotId { value: value.to_owned() })
    }

    pub fn as_str(&self) -> (r: &str)
        ensures
            r@ == self@,
            !is_blank(r@),
    {
        proof { use_type_invariant(self); }
        self.value.as_str()
    }
}

impl Clone for ChartSlotId {
    fn clone(&self) -> (r: Self)
        ensures
            r == *self,
    {
        proof { use_type_invariant(self); }
        ChartSlotId { value: self.value.clone() }
    }
}

impl PartialEq for ChartSlotId {
    fn eq(&self, other: &Self) -> (r: bool) {
        self.value == other.value
    }
}

impl Eq for ChartSlotId {
}

impl vstd::std_specs::cmp::PartialEqSpecImpl for ChartSlotId {
    open spec fn obeys_eq_spec() -> bool {
        true
    }

    open spec fn eq_spec(&self, other: &Self) -> bool {
        self@ == other@
    }
}

/// Identifier of a presentation panel; never blank.
#[derive(Debug)]
pub struct PanelId {
    value: String,
}

impl View for PanelId {
    type V = Seq<char>;

    closed spec fn view(&self) -> Seq<char> {
        self.value@
    }
}

impl PanelId {
    #[verifier::type_invariant]
    closed spec fn inv(self) -> bool {
        !is_blank(self.value@)
    }

    pub fn new(value: &str) -> (r: Result<Self, IdentifierError>)
        ensures
            r is Ok <==> !is_blank(value@),
            r matches Ok(id) ==> id@ == value@,
            r matches Err(e) ==> e == IdentifierError::Empty,
    {
        if text_is_blank(value) {
            return Err(IdentifierError::Empty);
        }
        Ok(PanelId { value: value.to_owned() })
    }

    pub fn as_str(&self) -> (r: &str)
        ensures
            r@ == self@,
            !is_blank(r@),
    {
        proof { use_type_invariant(self); }
        self.value.as_str()
    }
}

impl Clone for PanelId {
    fn clone(&self) -> (r: Self)
        ensures
            r == *self,
    {
        proof { use_type_invariant(self); }
        PanelId { value: self.value.clone() }
    }
}

impl PartialEq for PanelId {
    fn eq(&self, other: &Self) -> (r: bool) {
        self.value == other.value
    }
}

impl Eq for PanelId {
}

impl vstd::std_specs::cmp::PartialEqSpecImpl for PanelId {
    open spec fn obeys_eq_spec() -> bool {
        true
    }

    open spec fn eq_spec(&self, other: &Self) -> bool {
        self@ == other@
    }
}

/// Version of a canonical resource; never zero.
#[derive(Clone, Copy, Debug, PartialEq, Eq, Hash, PartialOrd, Ord, Structural)]
pub struct Revision(u64);

impl View for Revision {
    type V = u64;

    closed spec fn view(&self) -> u64 {
        self.0
    }
}

impl Revision {
    #[verifier::type_invariant]
    closed spec fn inv(self) -> bool {
        self.0 != 0
    }

    /// The first revision of every resource.
    pub fn initial() -> (r: Self)
        ensures
            r@ == 1,
    {
        Revision(1)
    }

    pub fn new(value: u64) -> (r: Result<Self, RevisionError>)
        ensures
            r is Ok <==> value != 0,
            r matches Ok(rev) ==> rev@ == value,
            r matches Err(e) ==> e == RevisionError::Zero,
    {
        if value == 0 {
            Err(RevisionError::Zero)
        } else {
            Ok(Revision(value))
        }
    }

    pub fn get(self) -> (r: u64)
        ensures
            r == self@,
            r != 0,
    {
        proof { use_type_invariant(&self); }
        self.0
    }

    /// The revision after this one; fails only where the successor would not fit in `u64`.
    pub fn next(self) -> (r: Result<Self, RevisionError>)
        ensures
            r is Ok <==> self@ < u64::MAX,
            r matches Ok(rev) ==> rev@ == self@ + 1,
            r matches Err(e) ==> e == RevisionError::Overflow,
    {
        match self.0.checked_add(1) {
            Some(value) => Ok(Revision(value)),
            None => Err(RevisionError::Overflow),
        }
    }
}

/// Version of the portable schema a resource was written in; never zero.
#[derive(Clone, Copy, Debug, PartialEq, Eq, Hash, PartialOrd, Ord, Structural)]
pub struct SchemaVersion(u32);

impl View for SchemaVersion {
    type V = u32;

    closed spec fn view(&self) -> u32 {
        self.0
    }
}

impl SchemaVersion {
    #[verifier::type_invariant]
    closed spec fn inv(self) -> bool {
        self.0 != 0
    }

    /// The only schema version this library reads and writes.
    pub fn v1() -> (r: Self)
        ensures
            r@ == 1,
    {
        SchemaVersion(1)
    }

    pub fn new(value: u32) -> (r: Result<Self, SchemaVersionError>)
        ensures
            r is Ok <==> value != 0,
            r matches Ok(v) ==> v@ == value,
            r matches Err(e) ==> e == SchemaVersionError::Zero,
    {
        if value == 0 {
            Err(SchemaVersionError::Zero)
        } else {
            Ok(SchemaVersion(value))
        }
    }

    pub fn get(self) -> (r: u32)
        ensures
            r == self@,
            r != 0,
    {
        proof { use_type_invariant(&self); }
        self.0
    }
}

/// Milliseconds since the Unix epoch.
#[derive(Clone, Copy, Debug, PartialEq, Eq, Hash, Ord, Structural)]
pub struct Timestamp(pub i64);

impl View for Timestamp {
    type V = i64;

    open spec fn view(&self) -> i64 {
        self.0
    }
}

impl Timestamp {
    pub fn from_unix_millis(value: i64) -> (r: Self)
        ensures
            r@ == value,
    {
        Timestamp(value)
    }

    pub fn unix_millis(self) -> (r: i64)
        ensures
            r == self@,
    {
        self.0
    }
}

impl Default for Timestamp {
    fn default() -> (r: Self)
        ensures
            r@ == 0,
    {
        Timestamp(0)
    }
}

/// A resource identity together with one of its revisions.
#[derive(Clone, Copy, Debug, PartialEq, Eq, Hash, PartialOrd, Ord, Structural)]
pub struct ResourceRevisionRef {
    pub id: ResourceId,
    pub revision: Revision,
}

impl DeepCopy for ResourceId {
    open spec fn copy_of(self, other: Self) -> bool {
        self == other
    }

    fn deep_copy(&self) -> (r: Self) {
        *self
    }
}

impl DeepCopy for InstanceId {
    open spec fn copy_of(self, other: Self) -> bool {
        self == other
    }

    fn deep_copy(&self) -> (r: Self) {
        *self
    }
}

impl DeepCopy for ChartSlotId {
    open spec fn copy_of(self, other: Self) -> bool {
        self == other
    }

    fn deep_copy(&self) -> (r: Self) {
        self.clone()
    }
}

impl DeepCopy for PointId {
    open spec fn copy_of(self, other: Self) -> bool {
        self == other
    }

    fn deep_copy(&self) -> (r: Self) {
        self.clone()
    }
}

impl DeepCopy for AspectId {
    open spec fn copy_of(self, other: Self) -> bool {
        self == other
    }

    fn deep_copy(&self) -> (r: Self) {
        self.clone()
    }
}


} // verus!
