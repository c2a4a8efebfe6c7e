//! Decimal text for unsigned integers: formatting, parsing, and the proof
//! that parsing undoes formatting.
//!
//! Size-bound keywords (`maxLength`, `minItems`, ...) carry their values on
//! the wire as decimal number literals; these functions move between that
//! text and machine integers.

use vstd::prelude::*;
use vstd::string::StringSliceAdditionalSpecFns;

verus! {

/// The character for a single decimal digit.
pub open spec fn digit_char(d: int) -> char {
    if d == 0 {
        '0'
    } else if d == 1 {
        '1'
    } else if d == 2 {
        '2'
    } else if d == 3 {
        '3'
    } else if d == 4 {
        '4'
    } else if d == 5 {
        '5'
    } else if d == 6 {
        '6'
    } else if d == 7 {
        '7'
    } else if d == 8 {
        '8'
    } else {
        '9'
    }
}

/// The canonical decimal text of `n`: no sign, no leading zero except for 0.
pub open spec fn dec_rep(n: nat) -> Seq<char>
    decreases n,
{
    if n < 10 {
        seq![digit_char(n as int)]
    } else {
        dec_rep(n / 10).push(digit_char((n % 10) as int))
    }
}

/// True for the characters '0' through '9'.
pub open spec fn is_dec_digit(c: char) -> bool {
    '0' <= c && c <= '9'
}

/// True when `s` is non-empty and all decimal digits.
pub open spec fn all_dec_digits(s: Seq<char>) -> bool {
    s.len() > 0 && forall|i: int| 0 <= i < s.len() ==> is_dec_digit(s[i])
}

/// The number the digit string `s` denotes, most significant digit first.
pub open spec fn digits_val(s: Seq<char>) -> nat
    decreases s.len(),
{
    if s.len() == 0 {
        0
    } else {
        digits_val(s.drop_last()) * 10 + (s.last() as u8 - ('0' as u8)) as nat
    }
}

/// A one-character string slice for the digit `d`.
fn digit_str(d: u8) -> (r: &'static str)
    requires
        d < 10,
    ensures
        r@ =~= seq![digit_char(d as int)],
{
    proof {
        reveal_strlit("0");
        reveal_strlit("1");
        reveal_strlit("2");
        reveal_strlit("3");
        reveal_strlit("4");
        reveal_strlit("5");
        reveal_strlit("6");
        reveal_strlit("7");
        reveal_strlit("8");
        reveal_strlit("9");
    }
    match d {
        0 => "0",
        1 => "1",
        2 => "2",
        3 => "3",
        4 => "4",
        5 => "5",
        6 => "6",
        7 => "7",
        8 => "8",
        _ => "9",
    }
}

/// The canonical decimal text of `n`.
pub fn format_u64(n: u64) -> (r: String)
    ensures
        r@ == dec_rep(n as nat),
    decreases n,
{
    if n < 10 {
        digit_str(n as u8).to_owned()
    } else {
        let mut s = format_u64(n / 10);
        s.append(digit_str((n % 10) as u8));
        proof {
            assert(s@ =~= dec_rep((n / 10) as nat).push(digit_char((n % 10) as int)));
        }
        s
    }
}

/// Every character `dec_rep` produces is a decimal digit.
pub proof fn lemma_dec_rep_digits(n: nat)
    ensures
        all_dec_digits(dec_rep(n)),
    decreases n,
{
    if n >= 10 {
        lemma_dec_rep_digits(n / 10);
    }
}

/// Reading back the canonical decimal text gives the number itself.
pub proof fn lemma_dec_rep_val(n: nat)
    ensures
        digits_val(dec_rep(n)) == n,
    decreases n,
{
    if n < 10 {
        let s = dec_rep(n);
        assert(s == seq![digit_char(n as int)]);
        assert(s.drop_last() =~= Seq::<char>::empty());
        assert(digits_val(s.drop_last()) == 0);
        assert(s.last() == digit_char(n as int));
        assert(digits_val(s) == digits_val(s.drop_last()) * 10 + (s.last() as u8 - (
        '0' as u8)) as nat);
    } else {
        lemma_dec_rep_val(n / 10);
        assert(dec_rep(n).drop_last() =~= dec_rep(n / 10));
        assert(dec_rep(n).last() == digit_char((n % 10) as int));
        assert((digit_char((n % 10) as int) as u8 - ('0' as u8)) as nat == n % 10);
        vstd::arithmetic::div_mod::lemma_fundamental_div_mod(n as int, 10);
    }
}

/// A longer digit string never denotes a smaller number.
proof fn lemma_digits_val_prefix(s: Seq<char>, i: int)
    requires
        0 <= i <= s.len(),
    ensures
        digits_val(s) >= digits_val(s.take(i)),
    decreases s.len() - i,
{
    if i < s.len() {
        lemma_digits_val_prefix(s, i + 1);
        assert(s.take(i + 1).drop_last() =~= s.take(i));
        assert(s.take(i + 1).last() == s[i]);
        assert(digits_val(s.take(i + 1)) == digits_val(s.take(i)) * 10 + (s[i] as u8 - (
        '0' as u8)) as nat);
    } else {
        assert(s.take(i) =~= s);
    }
}

/// The number a digit string denotes, if it is one and the value fits in u64.
pub open spec fn parse_u64_spec(s: Seq<char>) -> Option<u64> {
    if all_dec_digits(s) && digits_val(s) <= u64::MAX {
        Some(digits_val(s) as u64)
    } else {
        None
    }
}

/// Parse an unsigned decimal literal; `None` on any non-digit, on the empty
/// string, and on overflow.
pub fn parse_u64(s: &str) -> (r: Option<u64>)
    ensures
        r == parse_u64_spec(s@),
{
    if !s.is_ascii() {
        proof {
            let cs = s@;
            assert(!all_dec_digits(cs)) by {
                if all_dec_digits(cs) {
                    assert forall|i| 0 <= i < cs.len() implies '\0' <= #[trigger] cs[i]
                        <= '\u{7f}' by {
                        assert(is_dec_digit(cs[i]));
                    }
                    assert(vstd::utf8::is_ascii_chars(cs));
                }
            }
        }
        return None;
    }
    let n = s.unicode_len();
    if n == 0 {
        return None;
    }
    let mut acc: u64 = 0;
    let mut i: usize = 0;
    while i < n
        invariant
            s.is_ascii(),
            n == s@.len(),
            i <= n,
            forall|j: int| 0 <= j < i ==> is_dec_digit(s@[j]),
            acc == digits_val(s@.take(i as int)),
        decreases n - i,
    {
        let b = s.get_ascii(i);
        if b < 48 || b > 57 {
            proof {
                assert(!is_dec_digit(s@[i as int]));
            }
            return None;
        }
        let d = (b - 48) as u64;
        let next = match acc.checked_mul(10) {
            Some(m) => m.checked_add(d),
            None => None,
        };
        match next {
            Some(v) => {
                proof {
                    assert(s@.take(i as int + 1).drop_last() =~= s@.take(i as int));
                    assert(s@.take(i as int + 1).last() == s@[i as int]);
                }
                acc = v;
            },
            None => {
                proof {
                    assert(s@.take(i as int + 1).drop_last() =~= s@.take(i as int));
                    assert(s@.take(i as int + 1).last() == s@[i as int]);
                    assert(digits_val(s@.take(i as int + 1)) > u64::MAX);
                    lemma_digits_val_prefix(s@, i as int + 1);
                }
                return None;
            },
        }
        i += 1;
    }
    proof {
        assert(s@.take(n as int) =~= s@);
    }
    Some(acc)
}

/// Parsing the canonical text of `n` yields `n` again.
pub proof fn lemma_parse_format_round_trip(n: u64)
    ensures
        parse_u64_spec(dec_rep(n as nat)) == Some(n),
{
    lemma_dec_rep_digits(n as nat);
    lemma_dec_rep_val(n as nat);
}

} // verus!
