//! Text helpers: Unicode white space, trimming, lower-case hexadecimal.
use vstd::prelude::*;
use vstd::string::*;
use crate::ids::{hex_digit_lower, hex_digit_value};

verus! {

/// The Unicode `White_Space` property (the characters that `char::is_whitespace` accepts).
pub open spec fn is_white_space(c: char) -> bool {
    let n = c as u32;
    ||| 9 <= n <= 13
    ||| n == 0x20
    ||| n == 0x85
    ||| n == 0xA0
    ||| n == 0x1680
    ||| 0x2000 <= n <= 0x200A
    ||| n == 0x2028
    ||| n == 0x2029
    ||| n == 0x202F
    ||| n == 0x205F
    ||| n == 0x3000
}

/// Whether a character is Unicode white space.
pub fn is_white_space_char(c: char) -> (b: bool)
    ensures
        b == is_white_space(c),
{
    let n = c as u32;
    (9 <= n && n <= 13) || n == 0x20 || n == 0x85 || n == 0xA0 || n == 0x1680 || (0x2000 <= n
        && n <= 0x200A) || n == 0x2028 || n == 0x2029 || n == 0x202F || n == 0x205F || n == 0x3000
}

/// The text with its leading white space removed.
pub open spec fn trim_start(s: Seq<char>) -> Seq<char>
    decreases s.len(),
{
    if s.len() > 0 && is_white_space(s[0]) {
        trim_start(s.drop_first())
    } else {
        s
    }
}

/// The text with its trailing white space removed.
pub open spec fn trim_end(s: Seq<char>) -> Seq<char>
    decreases s.len(),
{
    if s.len() > 0 && is_white_space(s.last()) {
        trim_end(s.drop_last())
    } else {
        s
    }
}

/// The text with its leading and trailing white space removed (as `str::trim`).
pub open spec fn trimmed(s: Seq<char>) -> Seq<char> {
    trim_end(trim_start(s))
}

proof fn lemma_trim_start_step(s: Seq<char>, i: int)
    requires
        0 <= i < s.len(),
        is_white_space(s[i]),
    ensures
        trim_start(s.subrange(i, s.len() as int)) == trim_start(s.subrange(i + 1, s.len() as int)),
{
    assert(s.subrange(i, s.len() as int).drop_first() =~= s.subrange(i + 1, s.len() as int));
}

proof fn lemma_trim_end_step(s: Seq<char>, j: int)
    requires
        0 < j <= s.len(),
        is_white_space(s[j - 1]),
    ensures
        trim_end(s.subrange(0, j)) == trim_end(s.subrange(0, j - 1)),
{
    assert(s.subrange(0, j).drop_last() =~= s.subrange(0, j - 1));
}

/// Removes leading and trailing Unicode white space (as `str::trim`).
pub fn trim(s: &str) -> (r: String)
    ensures
        r@ == trimmed(s@),
{
    let n = s.unicode_len();
    let mut i: usize = 0;
    assert(s@.subrange(0, n as int) =~= s@);
    while i < n && is_white_space_char(s.get_char(i))
        invariant
            n == s@.len(),
            i <= n,
            trim_start(s@) == trim_start(s@.subrange(i as int, n as int)),
        decreases n - i,
    {
        proof {
            lemma_trim_start_step(s@, i as int);
        }
        i = i + 1;
    }
    let ghost rest = s@.subrange(i as int, n as int);
    assert(trim_start(s@) == rest) by {
        if i < n {
            assert(rest[0] == s@[i as int]);
        } else {
            assert(rest.len() == 0);
        }
    }
    let mut j: usize = n;
    assert(rest.subrange(0, (n - i) as int) =~= rest);
    while j > i && is_white_space_char(s.get_char(j - 1))
        invariant
            n == s@.len(),
            i <= j <= n,
            rest == s@.subrange(i as int, n as int),
            trim_end(rest) == trim_end(rest.subrange(0, (j - i) as int)),
        decreases j,
    {
        proof {
            lemma_trim_end_step(rest, (j - i) as int);
        }
        j = j - 1;
    }
    let kept = s.substring_char(i, j);
    assert(kept@ =~= rest.subrange(0, (j - i) as int));
    assert(trim_end(kept@) == kept@) by {
        if j > i {
            assert(kept@.last() == s@[j - 1]);
        }
    }
    kept.to_owned()
}

/// The lower-case hexadecimal text of a byte string, two digits per byte.
pub open spec fn hex_lower(bytes: Seq<u8>) -> Seq<char> {
    Seq::new(
        2 * bytes.len(),
        |i: int|
            hex_digit_lower(
                if i % 2 == 0 {
                    bytes[i / 2] / 16
                } else {
                    bytes[i / 2] % 16
                } as int,
            ),
    )
}

/// The one-character text of a hexadecimal digit.
fn hex_digit_text(n: u8) -> (s: &'static str)
    requires
        n < 16,
    ensures
        s@ == seq![hex_digit_lower(n as int)],
{
    let digits = "0123456789abcdef";
    proof {
        reveal_strlit("0123456789abcdef");
    }
    assert(digits@ =~= Seq::new(16, |k: int| hex_digit_lower(k))) by {
        assert forall|k: int| 0 <= k < 16 implies digits@[k] == hex_digit_lower(k) by {
            if k == 0 { assert(digits@[0] == '0'); }
            else if k == 1 { assert(digits@[1] == '1'); }
            else if k == 2 { assert(digits@[2] == '2'); }
            else if k == 3 { assert(digits@[3] == '3'); }
            else if k == 4 { assert(digits@[4] == '4'); }
            else if k == 5 { assert(digits@[5] == '5'); }
            else if k == 6 { assert(digits@[6] == '6'); }
            else if k == 7 { assert(digits@[7] == '7'); }
            else if k == 8 { assert(digits@[8] == '8'); }
            else if k == 9 { assert(digits@[9] == '9'); }
            else if k == 10 { assert(digits@[10] == 'a'); }
            else if k == 11 { assert(digits@[11] == 'b'); }
            else if k == 12 { assert(digits@[12] == 'c'); }
            else if k == 13 { assert(digits@[13] == 'd'); }
            else if k == 14 { assert(digits@[14] == 'e'); }
            else { assert(digits@[15] == 'f'); }
        }
    }
    let d = digits.substring_char(n as usize, n as usize + 1);
    assert(d@ =~= seq![hex_digit_lower(n as int)]);
    d
}

/// Renders bytes as lower-case hexadecimal, two digits per byte.
pub fn hex_lower_string(bytes: &[u8]) -> (s: String)
    ensures
        s@ == hex_lower(bytes@),
{
    let mut s = String::new();
    let n = bytes.len();
    for i in 0..n
        invariant
            n == bytes@.len(),
            s@.len() == 2 * i,
            forall|k: int| 0 <= k < 2 * i ==> s@[k] == #[trigger] hex_lower(bytes@)[k],
    {
        let b = bytes[i];
        let ghost before = s@;
        s.append(hex_digit_text(b / 16));
        s.append(hex_digit_text(b % 16));
        assert forall|k: int| 0 <= k < 2 * (i + 1) implies s@[k] == #[trigger] hex_lower(
            bytes@,
        )[k] by {
            if k >= 2 * i {
                assert(k / 2 == i as int);
            }
        }
    }
    assert(s@ =~= hex_lower(bytes@));
    s
}

/// Every byte becomes two hexadecimal digits, lower case, most significant
/// first, which read back as the byte.
pub proof fn lemma_hex_lower_reads_back(bytes: Seq<u8>)
    ensures
        hex_lower(bytes).len() == 2 * bytes.len(),
        forall|k: int|
            0 <= k < hex_lower(bytes).len() ==> ({
                let n = #[trigger] hex_lower(bytes)[k] as int;
                (48 <= n <= 57 || 97 <= n <= 102)
            }),
        forall|i: int|
            0 <= i < bytes.len() ==> ({
                let hi = hex_digit_value(hex_lower(bytes)[2 * i]);
                let lo = hex_digit_value(hex_lower(bytes)[2 * i + 1]);
                &&& hi is Some
                &&& lo is Some
                &&& hi->0 * 16 + lo->0 == #[trigger] bytes[i]
            }),
{
    let h = hex_lower(bytes);
    assert forall|k: int| 0 <= k < h.len() implies ({
        let n = #[trigger] h[k] as int;
        (48 <= n <= 57 || 97 <= n <= 102)
    }) by {
        assert(k / 2 < bytes.len());
    }
    assert forall|i: int| 0 <= i < bytes.len() implies ({
        let hi = hex_digit_value(h[2 * i]);
        let lo = hex_digit_value(h[2 * i + 1]);
        &&& hi is Some
        &&& lo is Some
        &&& hi->0 * 16 + lo->0 == #[trigger] bytes[i]
    }) by {
        assert((2 * i) % 2 == 0 && (2 * i) / 2 == i);
        assert((2 * i + 1) % 2 == 1 && (2 * i + 1) / 2 == i);
    }
}

/// Trimming keeps a contiguous middle part of the text: everything removed
/// before and after it is white space, and the part kept neither starts nor
/// ends with white space.
pub proof fn lemma_trim_keeps_middle(s: Seq<char>)
    ensures
        exists|i: int, j: int|
            {
                &&& 0 <= i <= j <= s.len()
                &&& trimmed(s) == s.subrange(i, j)
                &&& forall|k: int| 0 <= k < i ==> is_white_space(#[trigger] s[k])
                &&& forall|k: int| j <= k < s.len() ==> is_white_space(#[trigger] s[k])
                &&& i < j ==> !is_white_space(s[i]) && !is_white_space(s[j - 1])
            },
{
    let i = trim_start_index(s, 0);
    assert(s.subrange(0, s.len() as int) =~= s);
    let j = trim_end_index(s, i, s.len() as int);
    assert(trimmed(s) == s.subrange(i, j));
}

proof fn trim_start_index(s: Seq<char>, from: int) -> (i: int)
    requires
        0 <= from <= s.len(),
        forall|k: int| 0 <= k < from ==> is_white_space(#[trigger] s[k]),
    ensures
        from <= i <= s.len(),
        trim_start(s.subrange(from, s.len() as int)) == s.subrange(i, s.len() as int),
        forall|k: int| 0 <= k < i ==> is_white_space(#[trigger] s[k]),
        i < s.len() ==> !is_white_space(s[i]),
    decreases s.len() - from,
{
    if from < s.len() && is_white_space(s[from]) {
        lemma_trim_start_step(s, from);
        trim_start_index(s, from + 1)
    } else {
        if from < s.len() {
            assert(s.subrange(from, s.len() as int)[0] == s[from]);
        }
        from
    }
}

proof fn trim_end_index(s: Seq<char>, i: int, to: int) -> (j: int)
    requires
        0 <= i <= to <= s.len(),
        forall|k: int| to <= k < s.len() ==> is_white_space(#[trigger] s[k]),
        i < s.len() ==> !is_white_space(s[i]),
    ensures
        i <= j <= to,
        trim_end(s.subrange(i, to)) == s.subrange(i, j),
        forall|k: int| j <= k < s.len() ==> is_white_space(#[trigger] s[k]),
        i < j ==> !is_white_space(s[j - 1]),
    decreases to - i,
{
    if to > i && is_white_space(s[to - 1]) {
        assert(s.subrange(i, to).drop_last() =~= s.subrange(i, to - 1));
        trim_end_index(s, i, to - 1)
    } else {
        if to > i {
            assert(s.subrange(i, to).last() == s[to - 1]);
        }
        to
    }
}

} // verus!
