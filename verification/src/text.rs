//! Text building blocks: substring replacement, decimal rendering and the
//! joining of path text.
use vstd::prelude::*;

verus! {

/// `pat` occurs in `s` at position `i`.
pub open spec fn occurs_at(s: Seq<char>, pat: Seq<char>, i: int) -> bool {
    &&& 0 <= i
    &&& i + pat.len() <= s.len()
    &&& s.subrange(i, i + pat.len()) == pat
}

/// Every occurrence of a non-empty `pat` in `s`, scanned from the left and
/// without overlaps, replaced by `rep`.
pub open spec fn replace_all_spec(s: Seq<char>, pat: Seq<char>, rep: Seq<char>) -> Seq<char>
    decreases s.len(),
{
    if pat.len() == 0 || s.len() < pat.len() {
        s
    } else if s.subrange(0, pat.len() as int) == pat {
        rep + replace_all_spec(s.skip(pat.len() as int), pat, rep)
    } else {
        seq![s[0]] + replace_all_spec(s.skip(1), pat, rep)
    }
}

/// The decimal digit character of `d`.
pub open spec fn digit_char(d: nat) -> char {
    if d == 0 { '0' }
    else if d == 1 { '1' }
    else if d == 2 { '2' }
    else if d == 3 { '3' }
    else if d == 4 { '4' }
    else if d == 5 { '5' }
    else if d == 6 { '6' }
    else if d == 7 { '7' }
    else if d == 8 { '8' }
    else { '9' }
}

/// The decimal rendering of `n`, without sign or leading zeros.
pub open spec fn decimal_spec(n: nat) -> Seq<char>
    decreases n,
{
    if n < 10 {
        seq![digit_char(n)]
    } else {
        decimal_spec(n / 10) + seq![digit_char(n % 10)]
    }
}

/// What appending the relative or absolute path `rel` to `base` gives on a
/// Unix path: an absolute `rel` replaces `base`; otherwise a separator is put
/// between them unless `base` is empty or already ends in one.
pub open spec fn join_spec(base: Seq<char>, rel: Seq<char>) -> Seq<char> {
    if rel.len() > 0 && rel[0] == '/' {
        rel
    } else if base.len() > 0 && base.last() != '/' {
        base + seq!['/'] + rel
    } else {
        base + rel
    }
}

proof fn lemma_replace_step_miss(s: Seq<char>, pat: Seq<char>, rep: Seq<char>, i: int)
    requires
        pat.len() > 0,
        0 <= i,
        i + pat.len() <= s.len(),
        s.subrange(i, i + pat.len()) != pat,
    ensures
        replace_all_spec(s.skip(i), pat, rep) == seq![s[i]] + replace_all_spec(
            s.skip(i + 1),
            pat,
            rep,
        ),
{
    assert(s.skip(i).subrange(0, pat.len() as int) =~= s.subrange(i, i + pat.len()));
    assert(s.skip(i).skip(1) =~= s.skip(i + 1));
}

proof fn lemma_replace_step_hit(s: Seq<char>, pat: Seq<char>, rep: Seq<char>, i: int)
    requires
        pat.len() > 0,
        0 <= i,
        i + pat.len() <= s.len(),
        s.subrange(i, i + pat.len()) == pat,
    ensures
        replace_all_spec(s.skip(i), pat, rep) == rep + replace_all_spec(
            s.skip(i + pat.len()),
            pat,
            rep,
        ),
{
    assert(s.skip(i).subrange(0, pat.len() as int) =~= s.subrange(i, i + pat.len()));
    assert(s.skip(i).skip(pat.len() as int) =~= s.skip(i + pat.len()));
}

/// The characters of `s`, one by one.
pub fn chars_of(s: &str) -> (v: Vec<char>)
    ensures
        v@ == s@,
{
    let n = s.unicode_len();
    let mut v: Vec<char> = Vec::new();
    let mut i: usize = 0;
    while i < n
        invariant
            n == s@.len(),
            i <= n,
            v@ == s@.subrange(0, i as int),
        decreases n - i,
    {
        let c = s.get_char(i);
        v.push(c);
        i = i + 1;
        assert(v@ =~= s@.subrange(0, i as int));
    }
    assert(v@ =~= s@);
    v
}

/// Whether `pat` occurs in `s` at position `i`.
fn matches_at(s: &Vec<char>, pat: &Vec<char>, i: usize) -> (b: bool)
    requires
        i + pat@.len() <= s@.len(),
    ensures
        b == (s@.subrange(i as int, i + pat@.len()) == pat@),
{
    let m = pat.len();
    let sl = s.len();
    let mut k: usize = 0;
    while k < m
        invariant
            m == pat@.len(),
            sl == s@.len(),
            i + m <= s@.len(),
            k <= m,
            s@.subrange(i as int, i + k) == pat@.subrange(0, k as int),
        decreases m - k,
    {
        if s[i + k] != pat[k] {
            assert(s@.subrange(i as int, i + m)[k as int] != pat@[k as int]);
            return false;
        }
        k = k + 1;
        assert(s@.subrange(i as int, i + k) =~= pat@.subrange(0, k as int));
    }
    assert(pat@.subrange(0, m as int) =~= pat@);
    true
}

/// `s` with every occurrence of the non-empty `pat`, taken from the left and
/// without overlaps, replaced by `rep`.
pub fn replace_all(s: &str, pat: &str, rep: &str) -> (r: String)
    requires
        pat@.len() > 0,
    ensures
        r@ == replace_all_spec(s@, pat@, rep@),
{
    let sv = chars_of(s);
    let pv = chars_of(pat);
    let n = sv.len();
    let m = pv.len();
    let mut out = String::new();
    let mut last: usize = 0;
    let mut i: usize = 0;
    assert(s@.skip(0) =~= s@);
    while m <= n - i
        invariant
            n == s@.len(),
            m == pat@.len(),
            m > 0,
            sv@ == s@,
            pv@ == pat@,
            last <= i <= n,
            replace_all_spec(s@, pat@, rep@) == out@ + s@.subrange(last as int, i as int)
                + replace_all_spec(s@.skip(i as int), pat@, rep@),
        decreases n - i,
    {
        if matches_at(&sv, &pv, i) {
            proof {
                lemma_replace_step_hit(s@, pat@, rep@, i as int);
            }
            let piece = s.substring_char(last, i);
            out.append(piece);
            out.append(rep);
            i = i + m;
            last = i;
            assert(s@.subrange(last as int, i as int) =~= Seq::<char>::empty());
        } else {
            proof {
                lemma_replace_step_miss(s@, pat@, rep@, i as int);
                assert(s@.subrange(last as int, i + 1) =~= s@.subrange(last as int, i as int)
                    + seq![s@[i as int]]);
            }
            i = i + 1;
        }
    }
    proof {
        assert(replace_all_spec(s@.skip(i as int), pat@, rep@) == s@.skip(i as int));
        assert(s@.subrange(last as int, i as int) + s@.skip(i as int) =~= s@.subrange(
            last as int,
            n as int,
        ));
    }
    let rest = s.substring_char(last, n);
    out.append(rest);
    out
}

/// The one-character text of the decimal digit `d`.
fn digit_text(d: u32) -> (t: &'static str)
    requires
        d < 10,
    ensures
        t@ == seq![digit_char(d as nat)],
{
    if d == 0 {
        proof { reveal_strlit("0"); }
        "0"
    } else if d == 1 {
        proof { reveal_strlit("1"); }
        "1"
    } else if d == 2 {
        proof { reveal_strlit("2"); }
        "2"
    } else if d == 3 {
        proof { reveal_strlit("3"); }
        "3"
    } else if d == 4 {
        proof { reveal_strlit("4"); }
        "4"
    } else if d == 5 {
        proof { reveal_strlit("5"); }
        "5"
    } else if d == 6 {
        proof { reveal_strlit("6"); }
        "6"
    } else if d == 7 {
        proof { reveal_strlit("7"); }
        "7"
    } else if d == 8 {
        proof { reveal_strlit("8"); }
        "8"
    } else {
        proof { reveal_strlit("9"); }
        "9"
    }
}

/// The decimal rendering of `n`, as `{}` formats a `u32`: a numeral
/// without leading zeros that reads back as `n`.
pub fn decimal(n: u32) -> (t: String)
    ensures
        t@ == decimal_spec(n as nat),
        is_canonical_numeral(t@),
        numeral_value(t@) == n,
    decreases n,
{
    proof {
        law_decimal_reads_back(n as nat);
    }
    if n < 10 {
        String::from_str(digit_text(n))
    } else {
        let mut t = decimal(n / 10);
        t.append(digit_text(n % 10));
        t
    }
}

/// Whether `c` is one of the characters `0` to `9`.
pub open spec fn is_digit(c: char) -> bool {
    '0' <= c && c <= '9'
}

/// The number a digit character stands for: its distance from `0`.
pub open spec fn digit_value(c: char) -> int {
    (c as int) - ('0' as int)
}

/// The number that the digits `s` stand for, read in base ten.
pub open spec fn numeral_value(s: Seq<char>) -> int
    decreases s.len(),
{
    if s.len() == 0 {
        0
    } else {
        numeral_value(s.drop_last()) * 10 + digit_value(s.last())
    }
}

/// `s` is a base-ten numeral without leading zeros: digits only, at least
/// one, and no `0` in front unless it is the whole numeral.
pub open spec fn is_canonical_numeral(s: Seq<char>) -> bool {
    &&& s.len() > 0
    &&& forall|i: int| 0 <= i < s.len() ==> is_digit(#[trigger] s[i])
    &&& (s[0] != '0' || s.len() == 1)
}

proof fn lemma_digit_char(d: nat)
    requires
        d < 10,
    ensures
        is_digit(digit_char(d)),
        digit_value(digit_char(d)) == d,
{
}

proof fn lemma_single_numeral(c: char)
    ensures
        numeral_value(seq![c]) == digit_value(c),
{
    assert(seq![c].drop_last() =~= Seq::<char>::empty());
    assert(numeral_value(Seq::<char>::empty()) == 0);
    assert(seq![c].last() == c);
}

/// The decimal rendering of every number is a numeral without leading
/// zeros that reads back, in base ten, as that number.
pub proof fn law_decimal_reads_back(n: nat)
    ensures
        is_canonical_numeral(decimal_spec(n)),
        numeral_value(decimal_spec(n)) == n,
    decreases n,
{
    if n < 10 {
        lemma_digit_char(n);
        lemma_single_numeral(digit_char(n));
    } else {
        let q = n / 10;
        let r = n % 10;
        law_decimal_reads_back(q);
        lemma_digit_char(r);
        let prev = decimal_spec(q);
        let s = decimal_spec(n);
        assert(s == prev + seq![digit_char(r)]);
        assert(s.drop_last() =~= prev);
        assert(numeral_value(s) == numeral_value(prev) * 10 + digit_value(digit_char(r)));
        assert(q * 10 + r == n) by {
            vstd::arithmetic::div_mod::lemma_fundamental_div_mod(n as int, 10);
            vstd::arithmetic::mul::lemma_mul_is_commutative(10, n as int / 10);
        }
        assert forall|i: int| 0 <= i < s.len() implies is_digit(#[trigger] s[i]) by {
            if i < prev.len() {
                assert(s[i] == prev[i]);
            }
        }
        assert(s[0] == prev[0]);
        if prev.len() == 1 {
            lemma_single_numeral(prev[0]);
            assert(prev =~= seq![prev[0]]);
        }
    }
}

/// `rel` appended to the path `base` as a Unix path join does it.
pub fn join_path(base: &str, rel: &str) -> (p: String)
    ensures
        p@ == join_spec(base@, rel@),
{
    let rn = rel.unicode_len();
    let bn = base.unicode_len();
    if rn > 0 && rel.get_char(0) == '/' {
        String::from_str(rel)
    } else if bn > 0 && base.get_char(bn - 1) != '/' {
        let mut p = String::from_str(base);
        proof { reveal_strlit("/"); }
        p.append("/");
        p.append(rel);
        p
    } else {
        let mut p = String::from_str(base);
        p.append(rel);
        p
    }
}

} // verus!
