//! Text utilities for task identity: decimal rendering of counter values and
//! the `task_<n>` labels derived from them, together with the injectivity
//! facts that make such labels globally unique.

use vstd::prelude::*;
use vstd::string::StrSliceExecFns;
use vstd::string::StringExecFns;

verus! {

/// The character that spells the decimal digit `d`.
pub open spec fn digit_char(d: nat) -> char
    recommends
        d < 10,
{
    "0123456789"@[d as int]
}

/// The decimal spelling of `n`, most significant digit first, with no
/// leading zeros (a single `'0'` for zero itself).
pub open spec fn decimal_chars(n: nat) -> Seq<char>
    decreases n,
{
    if n < 10 {
        seq![digit_char(n)]
    } else {
        decimal_chars(n / 10).push(digit_char(n % 10))
    }
}

/// The label a task with counter value `n` is known by.
pub open spec fn task_label(n: nat) -> Seq<char> {
    "task_"@ + decimal_chars(n)
}

/// Appends the single digit `d` to `s`.
fn append_digit(s: &mut String, d: u64)
    requires
        d < 10,
    ensures
        final(s)@ == old(s)@.push(digit_char(d as nat)),
{
    let digits = "0123456789";
    proof {
        reveal_strlit("0123456789");
    }
    let i = d as usize;
    let piece = digits.substring_char(i, i + 1);
    s.append(piece);
    proof {
        assert(piece@ =~= seq![digit_char(d as nat)]);
        assert(s@ =~= old(s)@.push(digit_char(d as nat)));
    }
}

/// Appends the decimal spelling of `n` to `s`.
pub fn append_decimal(s: &mut String, n: u64)
    ensures
        final(s)@ == old(s)@ + decimal_chars(n as nat),
    decreases n,
{
    if n >= 10 {
        append_decimal(s, n / 10);
        append_digit(s, n % 10);
        proof {
            assert(s@ =~= old(s)@ + decimal_chars(n as nat));
        }
    } else {
        append_digit(s, n);
        proof {
            assert(s@ =~= old(s)@ + decimal_chars(n as nat));
        }
    }
}

/// The decimal spelling of `n` as a fresh string.
pub fn decimal_string(n: u64) -> (r: String)
    ensures
        r@ == decimal_chars(n as nat),
{
    let mut s = String::new();
    append_decimal(&mut s, n);
    proof {
        assert(s@ =~= decimal_chars(n as nat));
    }
    s
}

/// The `task_<n>` label for counter value `n`.
pub fn make_task_id(n: u64) -> (r: String)
    ensures
        r@ == task_label(n as nat),
{
    let mut s = String::from_str("task_");
    append_decimal(&mut s, n);
    s
}

/// The decimal spelling of a signed number: a minus sign ahead of the
/// magnitude for negative values.
pub open spec fn signed_decimal_chars(n: int) -> Seq<char> {
    if n < 0 {
        seq!['-'] + decimal_chars((-n) as nat)
    } else {
        decimal_chars(n as nat)
    }
}

/// Appends the decimal spelling of the signed `n` to `s`.
pub fn append_signed_decimal(s: &mut String, n: i32)
    ensures
        final(s)@ == old(s)@ + signed_decimal_chars(n as int),
{
    if n < 0 {
        s.append("-");
        let magnitude = -(n as i64);
        append_decimal(s, magnitude as u64);
        proof {
            reveal_strlit("-");
            assert("-"@ =~= seq!['-']);
            assert(s@ =~= old(s)@ + signed_decimal_chars(n as int));
        }
    } else {
        append_decimal(s, n as u64);
    }
}

/// Distinct digits are spelled by distinct characters.
pub proof fn lemma_digit_char_injective(i: nat, j: nat)
    requires
        i < 10,
        j < 10,
        i != j,
    ensures
        digit_char(i) != digit_char(j),
{
    reveal_strlit("0123456789");
    assert(digit_char(0) == '0');
    assert(digit_char(1) == '1');
    assert(digit_char(2) == '2');
    assert(digit_char(3) == '3');
    assert(digit_char(4) == '4');
    assert(digit_char(5) == '5');
    assert(digit_char(6) == '6');
    assert(digit_char(7) == '7');
    assert(digit_char(8) == '8');
    assert(digit_char(9) == '9');
}

/// A decimal spelling is never empty, and numbers of ten or more take at
/// least two characters.
pub proof fn lemma_decimal_chars_len(n: nat)
    ensures
        decimal_chars(n).len() >= 1,
        n >= 10 ==> decimal_chars(n).len() >= 2,
    decreases n,
{
    if n >= 10 {
        lemma_decimal_chars_len(n / 10);
    }
}

/// Distinct numbers have distinct decimal spellings.
pub proof fn lemma_decimal_chars_injective(a: nat, b: nat)
    requires
        decimal_chars(a) == decimal_chars(b),
    ensures
        a == b,
    decreases a + b,
{
    lemma_decimal_chars_len(a);
    lemma_decimal_chars_len(b);
    if a < 10 && b < 10 {
        if a != b {
            lemma_digit_char_injective(a, b);
            assert(decimal_chars(a)[0] == digit_char(a));
            assert(decimal_chars(b)[0] == digit_char(b));
        }
    } else if a < 10 && b >= 10 {
        assert(decimal_chars(a).len() == 1);
        assert(decimal_chars(b).len() >= 2);
    } else if a >= 10 && b < 10 {
        assert(decimal_chars(a).len() >= 2);
        assert(decimal_chars(b).len() == 1);
    } else {
        let pa = decimal_chars(a / 10);
        let pb = decimal_chars(b / 10);
        assert(decimal_chars(a).last() == digit_char(a % 10));
        assert(decimal_chars(b).last() == digit_char(b % 10));
        if a % 10 != b % 10 {
            lemma_digit_char_injective(a % 10, b % 10);
        }
        assert(a % 10 == b % 10);
        assert(pa =~= decimal_chars(a).drop_last());
        assert(pb =~= decimal_chars(b).drop_last());
        lemma_decimal_chars_injective(a / 10, b / 10);
        assert(a == 10 * (a / 10) + a % 10);
        assert(b == 10 * (b / 10) + b % 10);
    }
}

/// Distinct counter values yield distinct task labels.
pub proof fn lemma_task_label_injective(a: nat, b: nat)
    requires
        task_label(a) == task_label(b),
    ensures
        a == b,
{
    reveal_strlit("task_");
    let p = "task_"@;
    assert(decimal_chars(a) =~= task_label(a).subrange(p.len() as int, task_label(a).len() as int));
    assert(decimal_chars(b) =~= task_label(b).subrange(p.len() as int, task_label(b).len() as int));
    lemma_decimal_chars_injective(a, b);
}

/// Character-by-character string equality; two string slices are equal
/// exactly when their character sequences are.
pub fn str_eq(a: &str, b: &str) -> (r: bool)
    ensures
        r == (a@ == b@),
{
    let alen = a.unicode_len();
    let blen = b.unicode_len();
    if alen != blen {
        return false;
    }
    let mut i: usize = 0;
    while i < alen
        invariant
            i <= alen,
            alen == a@.len(),
            alen == b@.len(),
            forall|k: int| 0 <= k < i ==> a@[k] == b@[k],
        decreases alen - i,
    {
        if a.get_char(i) != b.get_char(i) {
            return false;
        }
        i = i + 1;
    }
    proof {
        assert(a@ =~= b@);
    }
    true
}

} // verus!
