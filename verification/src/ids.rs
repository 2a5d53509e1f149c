//! Unique identifiers: UUIDs held as their 128-bit big-endian value.
//!
//! Fresh identifiers come from the `uuid` crate's random (version 4)
//! generator; their text form is the crate's hyphenated lower-case rendering.
use vstd::prelude::*;
use vstd::arithmetic::power::pow;
use vstd::arithmetic::div_mod::{
    lemma_div_denominator, lemma_fundamental_div_mod, lemma_fundamental_div_mod_converse,
};

verus! {

/// The lower-case hexadecimal digit of a nibble in `0..16`.
pub open spec fn hex_digit_lower(n: int) -> char {
    if n < 10 {
        (48 + n) as char
    } else {
        (87 + n) as char
    }
}

/// Nibble `j` of a 128-bit value, counted from the most significant (`j == 0`).
pub open spec fn nibble_of(v: u128, j: int) -> int {
    (v as int / pow(16, (31 - j) as nat)) % 16
}

/// Which of the 32 hexadecimal digits stands at position `k` of the
/// hyphenated text (hyphens sit at positions 8, 13, 18 and 23).
pub open spec fn hyphenated_digit_index(k: int) -> int {
    if k < 8 {
        k
    } else if k < 13 {
        k - 1
    } else if k < 18 {
        k - 2
    } else if k < 23 {
        k - 3
    } else {
        k - 4
    }
}

/// The hyphenated lower-case text of a UUID value,
/// e.g. `67e55044-10b1-426f-9247-bb680e5fe0c8`.
pub open spec fn uuid_text(v: u128) -> Seq<char> {
    Seq::new(
        36,
        |k: int|
            if k == 8 || k == 13 || k == 18 || k == 23 {
                '-'
            } else {
                hex_digit_lower(nibble_of(v, hyphenated_digit_index(k)))
            },
    )
}

/// A version-4 (random) UUID value: version nibble 4 and RFC 4122 variant bits `10`.
pub open spec fn is_random_uuid(v: u128) -> bool {
    &&& (v / 0x10000000000000000000u128) % 16 == 4
    &&& (v / 0x4000000000000000u128) % 4 == 2
}

/// The value of a hexadecimal digit of either case, if `c` is one.
pub open spec fn hex_digit_value(c: char) -> Option<int> {
    let n = c as int;
    if 48 <= n <= 57 {
        Some(n - 48)
    } else if 97 <= n <= 102 {
        Some(n - 87)
    } else if 65 <= n <= 70 {
        Some(n - 55)
    } else {
        None
    }
}

/// Every character of `d` is a hexadecimal digit.
pub open spec fn all_hex_digits(d: Seq<char>) -> bool {
    forall|i: int| 0 <= i < d.len() ==> #[trigger] hex_digit_value(d[i]) is Some
}

/// The number that a run of hexadecimal digits spells, most significant first.
pub open spec fn hex_digits_value(d: Seq<char>) -> int
    decreases d.len(),
{
    if d.len() == 0 {
        0
    } else {
        let last = match hex_digit_value(d.last()) {
            Some(n) => n,
            None => 0,
        };
        hex_digits_value(d.drop_last()) * 16 + last
    }
}

/// The 32 digits of a text in the 8-4-4-4-12 hyphenated shape, if it has it.
pub open spec fn hyphenated_digits(s: Seq<char>) -> Option<Seq<char>> {
    if s.len() == 36 && s[8] == '-' && s[13] == '-' && s[18] == '-' && s[23] == '-' {
        Some(
            s.subrange(0, 8) + s.subrange(9, 13) + s.subrange(14, 18) + s.subrange(19, 23)
                + s.subrange(24, 36),
        )
    } else {
        None
    }
}

/// `c` is the lower-case ASCII character `p` when ASCII case is ignored.
pub open spec fn ascii_eq_ignore_case(c: char, p: char) -> bool {
    ||| c == p
    ||| (97 <= p as int <= 122 && c as int == p as int - 32)
}

/// `s` is `urn:uuid:` in any ASCII case.
pub open spec fn is_urn_prefix(s: Seq<char>) -> bool {
    let urn = seq!['u', 'r', 'n', ':', 'u', 'u', 'i', 'd', ':'];
    &&& s.len() == 9
    &&& forall|i: int| 0 <= i < 9 ==> #[trigger] ascii_eq_ignore_case(s[i], urn[i])
}

/// The 32 digit positions of a text in one of the shapes `uuid::Uuid::parse_str`
/// reads: 32 digits; the hyphenated form; the hyphenated form in braces; or
/// the hyphenated form after `urn:uuid:`.
pub open spec fn uuid_digits(t: Seq<char>) -> Option<Seq<char>> {
    if t.len() == 32 {
        Some(t)
    } else if t.len() == 36 {
        hyphenated_digits(t)
    } else if t.len() == 38 && t[0] == '{' && t[37] == '}' {
        hyphenated_digits(t.subrange(1, 37))
    } else if t.len() == 45 && is_urn_prefix(t.subrange(0, 9)) {
        hyphenated_digits(t.subrange(9, 45))
    } else {
        None
    }
}

/// What `uuid::Uuid::parse_str` yields for a text, as a 128-bit value: the
/// digits read big-endian when the text has one of its shapes and every
/// digit position holds a hexadecimal digit of either case.
pub open spec fn parsed_uuid(t: Seq<char>) -> Option<u128> {
    match uuid_digits(t) {
        Some(d) => if all_hex_digits(d) {
            Some(hex_digits_value(d) as u128)
        } else {
            None
        },
        None => None,
    }
}

/// The 32 lower-case hexadecimal digits of a value, most significant first.
pub open spec fn value_digits(v: u128) -> Seq<char> {
    Seq::new(32, |j: int| hex_digit_lower(nibble_of(v, j)))
}

/// A lower-case digit reads back as the nibble it was written for.
proof fn lemma_hex_digit_round_trip(n: int)
    requires
        0 <= n < 16,
    ensures
        hex_digit_value(hex_digit_lower(n)) == Some(n),
{
}

/// `16^32` is one past the largest 128-bit value.
proof fn lemma_sixteen_to_32()
    ensures
        pow(16, 32) == 0x1_0000_0000_0000_0000_0000_0000_0000_0000int,
{
    reveal_with_fuel(pow, 33);
}

/// The first `k` digits of a value spell the value without its last `32 - k` digits.
proof fn lemma_digit_prefix_value(v: u128, k: int)
    requires
        0 <= k <= 32,
    ensures
        hex_digits_value(value_digits(v).take(k)) == v as int / pow(16, (32 - k) as nat),
    decreases k,
{
    if k == 0 {
        lemma_sixteen_to_32();
        assert(value_digits(v).take(0) =~= Seq::<char>::empty());
    } else {
        lemma_digit_prefix_value(v, k - 1);
        let d = value_digits(v).take(k);
        assert(d.drop_last() =~= value_digits(v).take(k - 1));
        let p = pow(16, (32 - k) as nat);
        assert(pow(16, (33 - k) as nat) == 16 * p) by {
            reveal(pow);
        }
        vstd::arithmetic::power::lemma_pow_positive(16, (32 - k) as nat);
        let y = v as int / p;
        lemma_div_denominator(v as int, p, 16);
        assert(p * 16 == 16 * p) by (nonlinear_arith);
        lemma_fundamental_div_mod(y, 16);
        lemma_hex_digit_round_trip(y % 16);
        assert(d.last() == hex_digit_lower(nibble_of(v, k - 1)));
    }
}

/// The hyphenated lower-case text of a value parses back to that value.
pub proof fn lemma_uuid_text_parses_back(v: u128)
    ensures
        parsed_uuid(uuid_text(v)) == Some(v),
{
    let t = uuid_text(v);
    let digits = value_digits(v);
    assert(t.subrange(0, 8) + t.subrange(9, 13) + t.subrange(14, 18) + t.subrange(19, 23)
        + t.subrange(24, 36) =~= digits);
    assert forall|i: int| 0 <= i < digits.len() implies #[trigger] hex_digit_value(digits[i]) is Some by {
        lemma_hex_digit_round_trip(nibble_of(v, i));
    }
    lemma_digit_prefix_value(v, 32);
    assert(digits.take(32) =~= digits);
    assert(pow(16, 0) == 1) by {
        reveal(pow);
    }
}

/// The text of a version-4 identifier shows the version digit `4` at
/// position 14 and a variant digit `8`, `9`, `a` or `b` at position 19.
pub proof fn lemma_random_uuid_text(v: u128)
    requires
        is_random_uuid(v),
    ensures
        uuid_text(v)[14] == '4',
        uuid_text(v)[19] == '8' || uuid_text(v)[19] == '9' || uuid_text(v)[19] == 'a'
            || uuid_text(v)[19] == 'b',
{
    assert(pow(16, 19) == 0x10000000000000000000int) by {
        reveal_with_fuel(pow, 20);
    }
    assert(pow(16, 15) == 0x1000000000000000int) by {
        reveal_with_fuel(pow, 16);
    }
    assert(nibble_of(v, 12) == 4);
    let y = v as int / 0x1000000000000000int;
    lemma_div_denominator(v as int, 0x1000000000000000int, 4);
    assert(y / 4 == v as int / 0x4000000000000000int);
    assert((y / 4) % 4 == 2);
    let q = y / 16;
    let r = y % 16;
    lemma_fundamental_div_mod(y, 16);
    let r1 = r / 4;
    let r0 = r % 4;
    lemma_fundamental_div_mod(r, 4);
    lemma_fundamental_div_mod_converse(y, 4, 4 * q + r1, r0);
    lemma_fundamental_div_mod_converse(y / 4, 4, q, r1);
    assert(nibble_of(v, 16) == r);
    assert(8 <= r < 12);
    lemma_hex_digit_round_trip(r);
}

/// Calls `uuid::Uuid::new_v4` and reads the value with `as_u128`.
/// Trusted: the value is random; the crate masks in the version nibble 4 and
/// the variant bits `10`, which is all that is claimed of it.
#[verifier::external_body]
fn fresh_uuid_value() -> (v: u128)
    ensures
        is_random_uuid(v),
{
    uuid::Uuid::new_v4().as_u128()
}

/// Calls `uuid::Uuid::parse_str` and reads the value with `as_u128`.
/// Trusted: the crate picks the shape by the text's length (32, 36, 38 with
/// braces, 45 with a `urn:uuid:` prefix in any case), checks the hyphens at
/// 8, 13, 18 and 23 of the hyphenated part, and decodes 32 hexadecimal digits
/// of either case into 16 big-endian bytes; anything else is an error.
#[verifier::external_body]
pub(crate) fn parse_uuid_text(text: &str) -> (r: Option<u128>)
    ensures
        r == parsed_uuid(text@),
{
    match uuid::Uuid::parse_str(text) {
        Ok(u) => Some(u.as_u128()),
        Err(_) => None,
    }
}

/// Calls `uuid::Uuid::from_u128` and the crate's `Display` (`to_string`).
/// Trusted: the crate renders the 16 big-endian bytes as 32 lower-case hex
/// digits in groups of 8-4-4-4-12 separated by hyphens.
#[verifier::external_body]
pub(crate) fn format_uuid(v: u128) -> (s: String)
    ensures
        s@ == uuid_text(v),
{
    uuid::Uuid::from_u128(v).to_string()
}

/// A unique investigation identifier generated at case creation time.
/// Every artifact, record, and audit entry references its parent investigation.
#[derive(Debug, Clone, Copy, PartialEq, Eq, Hash, Structural)]
pub struct InvestigationId(pub u128);

impl InvestigationId {
    /// Generate a new unique (random, version 4) investigation identifier.
    pub fn new() -> (id: Self)
        ensures
            is_random_uuid(id.0),
    {
        InvestigationId(fresh_uuid_value())
    }

    /// The hyphenated lower-case text of the identifier.
    pub fn to_string(&self) -> (s: String)
        ensures
            s@ == uuid_text(self.0),
    {
        format_uuid(self.0)
    }
}

impl Default for InvestigationId {
    fn default() -> (id: Self)
        ensures
            is_random_uuid(id.0),
    {
        Self::new()
    }
}

/// A unique artifact identifier assigned when an artifact is ingested.
#[derive(Debug, Clone, Copy, PartialEq, Eq, Hash, Structural)]
pub struct ArtifactId(pub u128);

impl ArtifactId {
    /// Generate a new unique (random, version 4) artifact identifier.
    pub fn new() -> (id: Self)
        ensures
            is_random_uuid(id.0),
    {
        ArtifactId(fresh_uuid_value())
    }

    /// The hyphenated lower-case text of the identifier.
    pub fn to_string(&self) -> (s: String)
        ensures
            s@ == uuid_text(self.0),
    {
        format_uuid(self.0)
    }
}

impl Default for ArtifactId {
    fn default() -> (id: Self)
        ensures
            is_random_uuid(id.0),
    {
        Self::new()
    }
}

/// A unique record identifier for any evidence record (parsed, normalized, or correlated).
#[derive(Debug, Clone, Copy, PartialEq, Eq, Hash, Structural)]
pub struct RecordId(pub u128);

impl RecordId {
    /// Generate a new unique (random, version 4) record identifier.
    pub fn new() -> (id: Self)
        ensures
            is_random_uuid(id.0),
    {
        RecordId(fresh_uuid_value())
    }

    /// The hyphenated lower-case text of the identifier.
    pub fn to_string(&self) -> (s: String)
        ensures
            s@ == uuid_text(self.0),
    {
        format_uuid(self.0)
    }
}

impl Default for RecordId {
    fn default() -> (id: Self)
        ensures
            is_random_uuid(id.0),
    {
        Self::new()
    }
}

/// Unique identifier for a computed confidence score.
#[derive(Debug, Clone, Copy, PartialEq, Eq, Hash, Structural)]
pub struct ScoreId(pub u128);

impl ScoreId {
    /// Generate a new unique (random, version 4) score identifier.
    pub fn new() -> (id: Self)
        ensures
            is_random_uuid(id.0),
    {
        ScoreId(fresh_uuid_value())
    }
}

impl Default for ScoreId {
    fn default() -> (id: Self)
        ensures
            is_random_uuid(id.0),
    {
        Self::new()
    }
}

/// Unique identifier for a generated report.
#[derive(Debug, Clone, Copy, PartialEq, Eq, Hash, Structural)]
pub struct ReportId(pub u128);

impl ReportId {
    /// Generate a new unique (random, version 4) report identifier.
    pub fn new() -> (id: Self)
        ensures
            is_random_uuid(id.0),
    {
        ReportId(fresh_uuid_value())
    }

    /// The hyphenated lower-case text of the identifier.
    pub fn to_string(&self) -> (s: String)
        ensures
            s@ == uuid_text(self.0),
    {
        format_uuid(self.0)
    }
}

impl Default for ReportId {
    fn default() -> (id: Self)
        ensures
            is_random_uuid(id.0),
    {
        Self::new()
    }
}

} // verus!
