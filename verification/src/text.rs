use vstd::prelude::*;
use vstd::string::StrSliceExecFns;
use vstd::string::StringExecFns;

verus! {

/// The decimal digit character for a value below ten.
pub open spec fn digit_char(d: int) -> char {
    if d == 0 {
        '0'
    } else if d == 1 {
        '1'
    } else if d == 2 {
        '2'
    } else if d == 3 {
        '3'
    } else if d == 4 {
        '4'
    } else if d == 5 {
        '5'
    } else if d == 6 {
        '6'
    } else if d == 7 {
        '7'
    } else if d == 8 {
        '8'
    } else {
        '9'
    }
}

/// The decimal numeral of `n`, most significant digit first, no sign,
/// no leading zeros (a lone zero for `n == 0`).
pub open spec fn dec_str(n: nat) -> Seq<char>
    decreases n,
{
    if n < 10 {
        seq![digit_char(n as int)]
    } else {
        dec_str(n / 10).push(digit_char((n % 10) as int))
    }
}

/// `n` rendered as two digits, zero-padded on the left.
pub open spec fn pad2_str(n: int) -> Seq<char> {
    seq![digit_char(n / 10), digit_char(n % 10)]
}

fn digit_str(d: u64) -> (r: &'static str)
    requires
        d < 10,
    ensures
        r@ =~= seq![digit_char(d as int)],
{
    proof {
        reveal_strlit("0");
        reveal_strlit("1");
        reveal_strlit("2");
        reveal_strlit("3");
        reveal_strlit("4");
        reveal_strlit("5");
        reveal_strlit("6");
        reveal_strlit("7");
        reveal_strlit("8");
        reveal_strlit("9");
    }
    if d == 0 {
        "0"
    } else if d == 1 {
        "1"
    } else if d == 2 {
        "2"
    } else if d == 3 {
        "3"
    } else if d == 4 {
        "4"
    } else if d == 5 {
        "5"
    } else if d == 6 {
        "6"
    } else if d == 7 {
        "7"
    } else if d == 8 {
        "8"
    } else {
        "9"
    }
}

fn push_dec(s: &mut String, n: u64)
    ensures
        final(s)@ == old(s)@ + dec_str(n as nat),
    decreases n,
{
    if n >= 10 {
        push_dec(s, n / 10);
    }
    s.append(digit_str(n % 10));
    proof {
        if n >= 10 {
            assert(dec_str(n as nat) =~= dec_str(n as nat / 10) + seq![
                digit_char((n % 10) as int),
            ]);
        }
        assert(final(s)@ =~= old(s)@ + dec_str(n as nat));
    }
}

/// The decimal numeral of `n` as a `String`.
pub fn u64_to_string(n: u64) -> (r: String)
    ensures
        r@ == dec_str(n as nat),
{
    let mut s = String::new();
    push_dec(&mut s, n);
    proof {
        assert(s@ =~= dec_str(n as nat));
    }
    s
}

/// `n` as two zero-padded decimal digits.
pub fn pad2(n: u64) -> (r: String)
    requires
        n < 100,
    ensures
        r@ == pad2_str(n as int),
{
    let mut s = String::new();
    s.append(digit_str(n / 10));
    s.append(digit_str(n % 10));
    proof {
        assert(s@ =~= pad2_str(n as int));
    }
    s
}

/// A percentage in hundredths rounded to the nearest whole percent,
/// halves rounding up.
pub open spec fn rounded_percent(h: int) -> int {
    if h % 100 >= 50 {
        h / 100 + 1
    } else {
        h / 100
    }
}

/// Rounds a count of hundredths of a percent to whole percents,
/// halves up.
pub fn round_percent(h: u64) -> (r: u64)
    ensures
        r as int == rounded_percent(h as int),
{
    proof {
        assert(h as int / 100 < u64::MAX) by (nonlinear_arith);
    }
    if h % 100 >= 50 {
        h / 100 + 1
    } else {
        h / 100
    }
}

/// The needle `n` occurs in `h` starting at character position `i`.
pub open spec fn match_at(h: Seq<char>, n: Seq<char>, i: int) -> bool {
    &&& 0 <= i
    &&& i + n.len() <= h.len()
    &&& h.subrange(i, i + n.len()) == n
}

/// The needle `n` occurs somewhere in `h` (case-sensitive).
pub open spec fn has_substring(h: Seq<char>, n: Seq<char>) -> bool {
    exists|i: int| match_at(h, n, i)
}

fn matches_at(h: &str, n: &str, i: usize, hl: usize, nl: usize) -> (r: bool)
    requires
        hl == h@.len(),
        nl == n@.len(),
        i + nl <= hl,
    ensures
        r == match_at(h@, n@, i as int),
{
    let mut j: usize = 0;
    while j < nl
        invariant
            hl == h@.len(),
            nl == n@.len(),
            i + nl <= hl,
            j <= nl,
            forall|k: int| 0 <= k < j ==> h@[i + k] == n@[k],
        decreases nl - j,
    {
        if h.get_char(i + j) != n.get_char(j) {
            proof {
                assert(h@.subrange(i as int, i + nl) != n@) by {
                    assert(h@.subrange(i as int, i + nl)[j as int] == h@[i + j]);
                }
            }
            return false;
        }
        j += 1;
    }
    proof {
        assert(h@.subrange(i as int, i + nl) =~= n@);
    }
    true
}

/// Case-sensitive substring search, the match predicate the provider
/// registry dispatches on.
pub fn str_contains(h: &str, n: &str) -> (r: bool)
    ensures
        r == has_substring(h@, n@),
{
    let hl = h.unicode_len();
    let nl = n.unicode_len();
    if nl == 0 {
        proof {
            assert(h@.subrange(0, 0) =~= n@);
            assert(match_at(h@, n@, 0));
        }
        return true;
    }
    if nl > hl {
        proof {
            assert forall|i: int| !match_at(h@, n@, i) by {
                if 0 <= i && i + n@.len() <= h@.len() {
                    assert(n@.len() <= h@.len());
                }
            }
        }
        return false;
    }
    let mut i: usize = 0;
    while i <= hl - nl
        invariant
            hl == h@.len(),
            nl == n@.len(),
            0 < nl <= hl,
            i <= hl - nl + 1,
            forall|k: int| 0 <= k < i ==> !match_at(h@, n@, k),
        decreases hl - nl + 1 - i,
    {
        if matches_at(h, n, i, hl, nl) {
            return true;
        }
        i += 1;
    }
    proof {
        assert forall|k: int| !match_at(h@, n@, k) by {
            if 0 <= k && k + n@.len() <= h@.len() {
                assert(k < i);
            }
        }
    }
    false
}

} // verus!
