//! Decimal rendering and parsing of unsigned 64-bit counters.
//!
//! `dec_str` is the canonical decimal form of a number; `parse_u64_spec`
//! is the parse rule the numeric-edit session validates against
//! (an optional leading `+`, then decimal digits, value fitting in 64
//! bits). Printing and parsing are proved inverse to each other.
use vstd::arithmetic::div_mod::lemma_fundamental_div_mod;
use vstd::prelude::*;

verus! {

/// The digit character for a value below ten.
pub open spec fn digit_char(d: nat) -> char {
    if d == 0 {
        '0'
    } else if d == 1 {
        '1'
    } else if d == 2 {
        '2'
    } else if d == 3 {
        '3'
    } else if d == 4 {
        '4'
    } else if d == 5 {
        '5'
    } else if d == 6 {
        '6'
    } else if d == 7 {
        '7'
    } else if d == 8 {
        '8'
    } else {
        '9'
    }
}

/// Whether a character is a decimal digit.
pub open spec fn is_dec_digit(c: char) -> bool {
    c == '0' || c == '1' || c == '2' || c == '3' || c == '4' || c == '5' || c == '6' || c == '7'
        || c == '8' || c == '9'
}

/// The numeric value of a decimal digit character.
pub open spec fn digit_val(c: char) -> nat {
    if c == '0' {
        0
    } else if c == '1' {
        1
    } else if c == '2' {
        2
    } else if c == '3' {
        3
    } else if c == '4' {
        4
    } else if c == '5' {
        5
    } else if c == '6' {
        6
    } else if c == '7' {
        7
    } else if c == '8' {
        8
    } else {
        9
    }
}

/// The canonical decimal rendering of a number: no sign, no leading
/// zeros (except for the number zero itself).
pub open spec fn dec_str(n: nat) -> Seq<char>
    decreases n,
{
    if n < 10 {
        seq![digit_char(n)]
    } else {
        dec_str(n / 10).push(digit_char(n % 10))
    }
}

/// The numeric value of a string of decimal digits.
pub open spec fn dec_val(s: Seq<char>) -> nat
    decreases s.len(),
{
    if s.len() == 0 {
        0
    } else {
        dec_val(s.drop_last()) * 10 + digit_val(s.last())
    }
}

/// Whether every character of a string is a decimal digit.
pub open spec fn all_digits(s: Seq<char>) -> bool {
    forall|i: int| 0 <= i < s.len() ==> is_dec_digit(s[i])
}

/// The digit portion of an input: the input with one leading `+`
/// stripped, if present.
pub open spec fn digits_part(s: Seq<char>) -> Seq<char> {
    if s.len() > 0 && s[0] == '+' {
        s.skip(1)
    } else {
        s
    }
}

/// The parse rule for an unsigned 64-bit number: an optional leading
/// `+`, then at least one decimal digit, and a value at most `u64::MAX`.
pub open spec fn parse_u64_spec(s: Seq<char>) -> Option<u64> {
    let t = digits_part(s);
    if t.len() > 0 && all_digits(t) && dec_val(t) <= u64::MAX {
        Some(dec_val(t) as u64)
    } else {
        None
    }
}

/// Why a numeric input failed to parse.
#[derive(Clone, Copy, Debug, PartialEq, Eq, Structural)]
pub enum ParseError {
    /// No digits at all (empty input, or a bare sign).
    Empty,
    /// A character that is not a decimal digit.
    InvalidDigit,
    /// All digits, but the value does not fit in 64 bits.
    TooLarge,
}

/// The digit character for a value below ten, executable form.
fn digit_char_exec(d: u64) -> (c: char)
    requires
        d < 10,
    ensures
        c == digit_char(d as nat),
{
    if d == 0 {
        '0'
    } else if d == 1 {
        '1'
    } else if d == 2 {
        '2'
    } else if d == 3 {
        '3'
    } else if d == 4 {
        '4'
    } else if d == 5 {
        '5'
    } else if d == 6 {
        '6'
    } else if d == 7 {
        '7'
    } else if d == 8 {
        '8'
    } else {
        '9'
    }
}

/// The numeric value of a digit character, executable form;
/// `None` when the character is not a digit.
fn digit_val_exec(c: char) -> (r: Option<u64>)
    ensures
        r is Some <==> is_dec_digit(c),
        r matches Some(d) ==> d == digit_val(c) && d < 10,
{
    if c == '0' {
        Some(0)
    } else if c == '1' {
        Some(1)
    } else if c == '2' {
        Some(2)
    } else if c == '3' {
        Some(3)
    } else if c == '4' {
        Some(4)
    } else if c == '5' {
        Some(5)
    } else if c == '6' {
        Some(6)
    } else if c == '7' {
        Some(7)
    } else if c == '8' {
        Some(8)
    } else if c == '9' {
        Some(9)
    } else {
        None
    }
}

/// Relies on std's `String::push`: appends exactly the one character.
#[verifier::external_body]
pub(crate) fn push_char(s: &mut String, c: char)
    ensures
        final(s)@ == old(s)@.push(c),
{
    s.push(c);
}

/// Renders a number in its canonical decimal form.
pub fn u64_to_dec(n: u64) -> (r: String)
    ensures
        r@ == dec_str(n as nat),
{
    let mut digits: Vec<char> = Vec::new();
    let mut m: u64 = n;
    loop
        invariant_except_break
            digits@.len() == 0 ==> m == n,
            digits@.len() > 0 ==> m > 0 && dec_str(n as nat) =~= dec_str(m as nat)
                + digits@.reverse(),
        ensures
            dec_str(n as nat) =~= digits@.reverse(),
        decreases m,
    {
        let d = m % 10;
        let ghost digits_before = digits@;
        let ghost m_before = m as nat;
        digits.push(digit_char_exec(d));
        m = m / 10;
        proof {
            lemma_fundamental_div_mod(m_before as int, 10);
            assert(digits@.reverse() =~= seq![digit_char((m_before % 10) as nat)]
                + digits_before.reverse());
            if m_before >= 10 {
                assert(dec_str(m_before) == dec_str(m_before / 10).push(
                    digit_char(m_before % 10),
                ));
                assert(dec_str(m_before / 10).push(digit_char(m_before % 10)) =~= dec_str(
                    m_before / 10,
                ) + seq![digit_char(m_before % 10)]);
            }
            if digits_before.len() == 0 {
                assert(dec_str(n as nat) == dec_str(m_before));
            }
            if m == 0 {
                assert(m_before < 10);
                assert(m_before % 10 == m_before);
                assert(dec_str(m_before) == seq![digit_char(m_before)]);
                assert(dec_str(n as nat) =~= digits@.reverse());
            } else {
                assert(dec_str(n as nat) =~= dec_str(m as nat) + digits@.reverse());
            }
        }
        if m == 0 {
            break;
        }
    }
    let ghost rendered = dec_str(n as nat);
    proof {
        assert(rendered =~= digits@.reverse());
    }
    let mut r = String::new();
    let total: usize = digits.len();
    let mut k: usize = 0;
    while k < total
        invariant
            total == digits@.len(),
            k <= total,
            rendered == digits@.reverse(),
            r@ =~= rendered.subrange(0, k as int),
        decreases total - k,
    {
        push_char(&mut r, digits[total - 1 - k]);
        proof {
            assert(r@ =~= rendered.subrange(0, k + 1 as int));
        }
        k = k + 1;
    }
    proof {
        assert(r@ =~= rendered);
    }
    r
}

/// The value of a digit string never shrinks as the string grows to
/// the right.
proof fn lemma_dec_val_prefix_le(s: Seq<char>, k: int)
    requires
        0 <= k <= s.len(),
    ensures
        dec_val(s.subrange(0, k)) <= dec_val(s),
    decreases s.len() - k,
{
    if k == s.len() {
        assert(s.subrange(0, k) =~= s);
    } else {
        lemma_dec_val_prefix_le(s, k + 1);
        let p = s.subrange(0, k + 1);
        assert(p.drop_last() =~= s.subrange(0, k));
        assert(dec_val(s.subrange(0, k)) <= dec_val(p));
    }
}

/// Parses a numeric input under the session's parse rule, reporting
/// the exact reason when it fails.
pub fn parse_u64(s: &str) -> (r: Result<u64, ParseError>)
    ensures
        r matches Ok(v) ==> parse_u64_spec(s@) == Some(v),
        r is Ok <==> parse_u64_spec(s@) is Some,
        r == Err::<u64, ParseError>(ParseError::Empty) <==> digits_part(s@).len() == 0,
        r == Err::<u64, ParseError>(ParseError::InvalidDigit) <==> digits_part(s@).len() > 0
            && !all_digits(digits_part(s@)),
        r == Err::<u64, ParseError>(ParseError::TooLarge) <==> digits_part(s@).len() > 0
            && all_digits(digits_part(s@)) && dec_val(digits_part(s@)) > u64::MAX,
{
    let len = s.unicode_len();
    let mut start: usize = 0;
    if len > 0 && s.get_char(0) == '+' {
        start = 1;
    }
    let ghost t = digits_part(s@);
    proof {
        assert(t =~= s@.subrange(start as int, len as int));
    }
    if start == len {
        return Err(ParseError::Empty);
    }
    // First pass: every character must be a digit.
    let mut i: usize = start;
    while i < len
        invariant
            start <= i <= len,
            len == s@.len(),
            t == digits_part(s@),
            t == s@.subrange(start as int, len as int),
            t.len() == len - start,
            forall|k: int| start <= k < i ==> is_dec_digit(s@[k]),
        decreases len - i,
    {
        let c = s.get_char(i);
        if digit_val_exec(c).is_none() {
            proof {
                assert(t[i - start as int] == s@[i as int]);
                assert(!is_dec_digit(t[i - start as int]));
                assert(!all_digits(t));
            }
            return Err(ParseError::InvalidDigit);
        }
        i = i + 1;
    }
    proof {
        assert(all_digits(t));
    }
    // Second pass: accumulate, watching for 64-bit overflow.
    let mut acc: u64 = 0;
    let mut j: usize = start;
    while j < len
        invariant
            start <= j <= len,
            len == s@.len(),
            t == digits_part(s@),
            t == s@.subrange(start as int, len as int),
            t.len() == len - start,
            all_digits(t),
            acc as nat == dec_val(t.subrange(0, j - start as int)),
        decreases len - j,
    {
        let c = s.get_char(j);
        let d = match digit_val_exec(c) {
            Some(d) => d,
            Option::None => {
                proof {
                    assert(is_dec_digit(t[j - start as int]));
                }
                return Err(ParseError::InvalidDigit);
            },
        };
        let wide: u128 = acc as u128 * 10 + d as u128;
        proof {
            let p = t.subrange(0, j + 1 - start as int);
            assert(p.drop_last() =~= t.subrange(0, j - start as int));
            assert(dec_val(p) == acc as nat * 10 + digit_val(t[j - start as int]));
        }
        if wide > u64::MAX as u128 {
            proof {
                lemma_dec_val_prefix_le(t, j + 1 - start as int);
            }
            return Err(ParseError::TooLarge);
        }
        acc = wide as u64;
        j = j + 1;
    }
    proof {
        assert(t.subrange(0, len - start as int) =~= t);
    }
    Ok(acc)
}

/// The canonical decimal form of a number consists of digits alone.
pub proof fn lemma_dec_str_digits(n: nat)
    ensures
        dec_str(n).len() >= 1,
        all_digits(dec_str(n)),
        dec_str(n)[0] != '+',
    decreases n,
{
    if n >= 10 {
        lemma_dec_str_digits(n / 10);
        assert forall|i: int| 0 <= i < dec_str(n).len() implies is_dec_digit(
            dec_str(n)[i],
        ) by {
            if i < dec_str(n / 10).len() {
                assert(is_dec_digit(dec_str(n / 10)[i]));
            }
        }
    }
}

/// Reading back the canonical decimal form gives the number itself.
proof fn lemma_dec_val_of_dec_str(n: nat)
    ensures
        dec_val(dec_str(n)) == n,
    decreases n,
{
    if n < 10 {
        assert(dec_str(n) == seq![digit_char(n)]);
        assert(dec_str(n).drop_last() =~= Seq::<char>::empty());
        assert(dec_val(Seq::<char>::empty()) == 0);
        assert(dec_str(n).last() == digit_char(n));
        assert(digit_val(digit_char(n)) == n);
    } else {
        lemma_dec_val_of_dec_str(n / 10);
        assert(dec_str(n) == dec_str(n / 10).push(digit_char(n % 10)));
        assert(dec_str(n).drop_last() =~= dec_str(n / 10));
        assert(dec_str(n).last() == digit_char(n % 10));
        assert(digit_val(digit_char(n % 10)) == n % 10);
        assert(dec_val(dec_str(n)) == dec_val(dec_str(n / 10)) * 10 + digit_val(
            dec_str(n).last(),
        ));
        lemma_fundamental_div_mod(n as int, 10);
    }
}

/// Round trip: the parse rule accepts the canonical decimal form of
/// every 64-bit number and yields the number back.
pub proof fn lemma_dec_round_trip(n: u64)
    ensures
        parse_u64_spec(dec_str(n as nat)) == Some(n),
{
    lemma_dec_str_digits(n as nat);
    lemma_dec_val_of_dec_str(n as nat);
    assert(digits_part(dec_str(n as nat)) == dec_str(n as nat));
}

} // verus!
