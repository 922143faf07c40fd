//! Character-level building blocks: conversions between `String` and
//! `Vec<char>`, and strict decimal parsing and formatting of `u64` values.

use vstd::prelude::*;
use vstd::std_specs::iter::IteratorSpec;

verus! {

/// Collects the characters of `s`, in order, into a vector.
pub fn chars_of(s: &str) -> (r: Vec<char>)
    ensures
        r@ == s@,
{
    broadcast use vstd::string::axiom_spec_iter;
    broadcast use vstd::string::next_postcondition;

    let mut it = s.chars();
    let mut r: Vec<char> = Vec::new();
    proof {
        assert(r@ + it.remaining() =~= s@);
    }
    loop
        invariant
            it.obeys_prophetic_iter_laws(),
            it.decrease() is Some,
            r@ + it.remaining() == s@,
        ensures
            r@ + it.remaining() == s@,
            it.remaining().len() == 0,
        decreases it.decrease().unwrap(),
    {
        match it.next() {
            Some(c) => {
                r.push(c);
                proof {
                    assert(r@ + it.remaining() =~= s@);
                }
            },
            None => {
                break ;
            },
        }
    }
    proof {
        assert(r@ + it.remaining() =~= r@);
    }
    r
}

/// Relies on `String`'s `FromIterator<char>`: collecting characters builds
/// the string holding exactly those characters in order.
#[verifier::external_body]
pub fn string_of(v: &Vec<char>) -> (r: String)
    ensures
        r@ == v@,
{
    v.iter().collect()
}

/// Copies the characters of `v` between `i` and `j` into a fresh vector.
pub fn subvec(v: &Vec<char>, i: usize, j: usize) -> (r: Vec<char>)
    requires
        i <= j <= v@.len(),
    ensures
        r@ == v@.subrange(i as int, j as int),
{
    let mut r: Vec<char> = Vec::new();
    let mut k: usize = i;
    while k < j
        invariant
            i <= k <= j <= v@.len(),
            r@ == v@.subrange(i as int, k as int),
        decreases j - k,
    {
        r.push(v[k]);
        proof {
            assert(v@.subrange(i as int, k + 1 as int) =~= v@.subrange(i as int, k as int).push(
                v@[k as int],
            ));
        }
        k = k + 1;
    }
    proof {
        assert(r@ =~= v@.subrange(i as int, j as int));
    }
    r
}

/// Compares two character vectors for equality of their contents.
pub fn chars_eq(a: &Vec<char>, b: &Vec<char>) -> (r: bool)
    ensures
        r == (a@ == b@),
{
    if a.len() != b.len() {
        proof {
            assert(a@ != b@);
        }
        return false;
    }
    let mut k: usize = 0;
    while k < a.len()
        invariant
            k <= a@.len(),
            a@.len() == b@.len(),
            forall|i: int| 0 <= i < k ==> a@[i] == b@[i],
        decreases a@.len() - k,
    {
        if a[k] != b[k] {
            proof {
                assert(a@ != b@);
            }
            return false;
        }
        k = k + 1;
    }
    proof {
        assert(a@ =~= b@);
    }
    true
}

pub open spec fn is_digit(c: char) -> bool {
    '0' as u32 <= c as u32 && c as u32 <= '9' as u32
}

pub open spec fn digit_val(c: char) -> int {
    c as u32 - '0' as u32
}

pub open spec fn char_of_digit(d: int) -> char {
    if d == 0 {
        '0'
    } else if d == 1 {
        '1'
    } else if d == 2 {
        '2'
    } else if d == 3 {
        '3'
    } else if d == 4 {
        '4'
    } else if d == 5 {
        '5'
    } else if d == 6 {
        '6'
    } else if d == 7 {
        '7'
    } else if d == 8 {
        '8'
    } else {
        '9'
    }
}

pub open spec fn all_digits(s: Seq<char>) -> bool {
    forall|i: int| 0 <= i < s.len() ==> is_digit(#[trigger] s[i])
}

/// The decimal representation of a non-negative integer, most significant
/// digit first.
pub open spec fn dec_digits(n: int) -> Seq<char>
    recommends
        n >= 0,
    decreases n,
{
    if n < 10 {
        seq![char_of_digit(n)]
    } else {
        dec_digits(n / 10).push(char_of_digit(n % 10))
    }
}

/// The integer value of a sequence of decimal digits.
pub open spec fn digits_val(s: Seq<char>) -> int
    decreases s.len(),
{
    if s.len() == 0 {
        0
    } else {
        digits_val(s.drop_last()) * 10 + digit_val(s.last())
    }
}

pub proof fn lemma_digits_val_nonneg(s: Seq<char>)
    requires
        all_digits(s),
    ensures
        digits_val(s) >= 0,
    decreases s.len(),
{
    if s.len() > 0 {
        assert(all_digits(s.drop_last()));
        lemma_digits_val_nonneg(s.drop_last());
        assert(digits_val(s.drop_last()) * 10 >= 0) by (nonlinear_arith)
            requires
                digits_val(s.drop_last()) >= 0,
        ;
    }
}

pub proof fn lemma_dec_digits(n: int)
    requires
        n >= 0,
    ensures
        dec_digits(n).len() >= 1,
        all_digits(dec_digits(n)),
        digits_val(dec_digits(n)) == n,
    decreases n,
{
    if n < 10 {
        assert(dec_digits(n) =~= seq![char_of_digit(n)]);
        assert(dec_digits(n).drop_last() =~= Seq::<char>::empty());
        assert(digits_val(Seq::<char>::empty()) == 0);
        assert(dec_digits(n).last() == char_of_digit(n));
        assert(digits_val(dec_digits(n)) == digit_val(char_of_digit(n)));
    } else {
        lemma_dec_digits(n / 10);
        vstd::arithmetic::div_mod::lemma_fundamental_div_mod(n, 10);
        assert(dec_digits(n).drop_last() =~= dec_digits(n / 10));
        assert(dec_digits(n).last() == char_of_digit(n % 10));
        assert(is_digit(char_of_digit(n % 10)));
        assert(forall|i: int|
            0 <= i < dec_digits(n).len() ==> is_digit(#[trigger] dec_digits(n)[i]));
    }
}

/// Appending a digit never decreases the value a digit string denotes.
pub proof fn lemma_digits_val_push_ge(s: Seq<char>, c: char)
    requires
        digits_val(s) >= 0,
        is_digit(c),
    ensures
        digits_val(s.push(c)) >= digits_val(s),
{
    assert(s.push(c).drop_last() =~= s);
    assert(s.push(c).last() == c);
    assert(digits_val(s) * 10 >= digits_val(s)) by (nonlinear_arith)
        requires
            digits_val(s) >= 0,
    ;
}

/// The strict decimal reading of a whole character sequence: at least one
/// digit, nothing but digits, and a value that fits in `u64`.
pub open spec fn spec_parse_u64(s: Seq<char>) -> Option<u64> {
    if s.len() > 0 && all_digits(s) && digits_val(s) <= u64::MAX {
        Some(digits_val(s) as u64)
    } else {
        None
    }
}

/// Parses a whole character vector as a decimal `u64`.
pub fn parse_u64_chars(v: &Vec<char>) -> (r: Option<u64>)
    ensures
        r == spec_parse_u64(v@),
{
    if v.len() == 0 {
        return None;
    }
    let mut k: usize = 0;
    let mut acc: u64 = 0;
    let mut ok: bool = true;
    while k < v.len()
        invariant
            k <= v@.len(),
            all_digits(v@.subrange(0, k as int)),
            ok ==> acc == digits_val(v@.subrange(0, k as int)),
            !ok ==> digits_val(v@.subrange(0, k as int)) > u64::MAX,
        decreases v@.len() - k,
    {
        let c = v[k];
        let u = c as u32;
        if u < '0' as u32 || u > '9' as u32 {
            proof {
                assert(!is_digit(v@[k as int]));
                assert(!all_digits(v@));
            }
            return None;
        }
        let d: u64 = (u - '0' as u32) as u64;
        proof {
            assert(v@.subrange(0, k + 1 as int).drop_last() =~= v@.subrange(0, k as int));
            assert(v@.subrange(0, k + 1 as int).last() == v@[k as int]);
            assert(digits_val(v@.subrange(0, k + 1 as int)) == digits_val(
                v@.subrange(0, k as int),
            ) * 10 + digit_val(v@[k as int]));
            assert(is_digit(v@[k as int]));
            assert forall|i: int| 0 <= i < k + 1 implies is_digit(
                #[trigger] v@.subrange(0, k + 1 as int)[i],
            ) by {
                if i < k {
                    assert(v@.subrange(0, k as int)[i] == v@[i]);
                } else {
                    assert(v@.subrange(0, k + 1 as int)[i] == v@[k as int]);
                }
            }
        }
        if ok {
            proof {
                lemma_digits_val_nonneg(v@.subrange(0, k as int));
            }
            match acc.checked_mul(10) {
                Some(m) => match m.checked_add(d) {
                    Some(t) => {
                        acc = t;
                    },
                    None => {
                        ok = false;
                    },
                },
                None => {
                    ok = false;
                },
            }
        } else {
            proof {
                lemma_digits_val_push_ge(v@.subrange(0, k as int), v@[k as int]);
            }
        }
        k = k + 1;
    }
    proof {
        assert(v@.subrange(0, v@.len() as int) =~= v@);
    }
    if ok {
        Some(acc)
    } else {
        None
    }
}

/// Produces the character the decimal digit `d` prints as.
pub fn digit_char(d: u64) -> (r: char)
    requires
        d < 10,
    ensures
        r == char_of_digit(d as int),
{
    match d {
        0 => '0',
        1 => '1',
        2 => '2',
        3 => '3',
        4 => '4',
        5 => '5',
        6 => '6',
        7 => '7',
        8 => '8',
        _ => '9',
    }
}

/// Appends the decimal representation of `n` to `out`.
pub fn push_dec(n: u64, out: &mut Vec<char>)
    ensures
        final(out)@ == old(out)@ + dec_digits(n as int),
    decreases n,
{
    if n < 10 {
        out.push(digit_char(n));
        proof {
            assert(old(out)@.push(char_of_digit(n as int)) =~= old(out)@ + dec_digits(n as int));
        }
    } else {
        push_dec(n / 10, out);
        out.push(digit_char(n % 10));
        proof {
            assert((old(out)@ + dec_digits(n as int / 10)).push(char_of_digit(n as int % 10))
                =~= old(out)@ + dec_digits(n as int));
        }
    }
}

} // verus!
