use vstd::prelude::*;
use vstd::string::*;

verus! {

/// The character for one decimal digit.
pub open spec fn spec_digit_char(d: nat) -> char {
    if d == 0 {
        '0'
    } else if d == 1 {
        '1'
    } else if d == 2 {
        '2'
    } else if d == 3 {
        '3'
    } else if d == 4 {
        '4'
    } else if d == 5 {
        '5'
    } else if d == 6 {
        '6'
    } else if d == 7 {
        '7'
    } else if d == 8 {
        '8'
    } else {
        '9'
    }
}

/// The decimal representation of `n`, most significant digit first,
/// with no leading zero except for `n == 0` itself.
pub open spec fn spec_decimal(n: nat) -> Seq<char>
    decreases n,
{
    if n < 10 {
        seq![spec_digit_char(n)]
    } else {
        spec_decimal(n / 10) + seq![spec_digit_char(n % 10)]
    }
}

fn digit_str(d: u64) -> (r: &'static str)
    requires
        d < 10,
    ensures
        r@ == seq![spec_digit_char(d as nat)],
{
    proof {
        reveal_strlit("0");
        reveal_strlit("1");
        reveal_strlit("2");
        reveal_strlit("3");
        reveal_strlit("4");
        reveal_strlit("5");
        reveal_strlit("6");
        reveal_strlit("7");
        reveal_strlit("8");
        reveal_strlit("9");
    }
    let r = match d {
        0 => "0",
        1 => "1",
        2 => "2",
        3 => "3",
        4 => "4",
        5 => "5",
        6 => "6",
        7 => "7",
        8 => "8",
        _ => "9",
    };
    proof {
        assert(r@ =~= seq![spec_digit_char(d as nat)]);
    }
    r
}

/// Formats `n` in decimal.
pub fn u64_to_decimal(n: u64) -> (r: String)
    ensures
        r@ == spec_decimal(n as nat),
    decreases n,
{
    if n < 10 {
        String::from_str(digit_str(n))
    } else {
        let mut s = u64_to_decimal(n / 10);
        s.append(digit_str(n % 10));
        s
    }
}

/// True when `pat` occurs in `s` starting at position `i`.
pub open spec fn spec_match_at(s: Seq<char>, pat: Seq<char>, i: int) -> bool {
    0 <= i && i + pat.len() <= s.len() && s.subrange(i, i + pat.len() as int) == pat
}

/// `s` with every non-overlapping occurrence of `pat` replaced by `to`,
/// scanning left to right; `s` itself when `pat` is empty.
pub open spec fn spec_replace(s: Seq<char>, pat: Seq<char>, to: Seq<char>) -> Seq<char>
    decreases s.len(),
{
    if pat.len() == 0 || s.len() < pat.len() {
        s
    } else if s.subrange(0, pat.len() as int) == pat {
        to + spec_replace(s.skip(pat.len() as int), pat, to)
    } else {
        seq![s[0]] + spec_replace(s.skip(1), pat, to)
    }
}

proof fn lemma_match_shift(t: Seq<char>, pat: Seq<char>, d: int, j: int)
    requires
        0 <= d <= t.len(),
        0 <= j,
    ensures
        spec_match_at(t.skip(d), pat, j) <==> spec_match_at(t, pat, d + j),
{
    if j + pat.len() <= t.len() - d {
        assert(t.skip(d).subrange(j, j + pat.len() as int) =~= t.subrange(
            d + j,
            d + j + pat.len() as int,
        ));
    }
}

proof fn lemma_replace_step(t: Seq<char>, pat: Seq<char>, to: Seq<char>, i: int)
    requires
        pat.len() >= 1,
        spec_match_at(t, pat, i),
        forall|k: int| 0 <= k < i ==> !spec_match_at(t, pat, k),
    ensures
        spec_replace(t, pat, to) == t.subrange(0, i) + to + spec_replace(
            t.skip(i + pat.len() as int),
            pat,
            to,
        ),
    decreases i,
{
    let m = pat.len() as int;
    if i == 0 {
        assert(t.subrange(0, m) == pat);
        assert(t.subrange(0, 0) + to + spec_replace(t.skip(m), pat, to) =~= to + spec_replace(
            t.skip(m),
            pat,
            to,
        ));
    } else {
        assert(!spec_match_at(t, pat, 0));
        assert(t.len() >= i + m > m);
        assert(t.subrange(0, m) != pat);
        assert(spec_replace(t, pat, to) == seq![t[0]] + spec_replace(t.skip(1), pat, to));
        assert forall|k: int| 0 <= k < i - 1 implies !spec_match_at(t.skip(1), pat, k) by {
            lemma_match_shift(t, pat, 1, k);
        }
        lemma_match_shift(t, pat, 1, i - 1);
        lemma_replace_step(t.skip(1), pat, to, i - 1);
        assert(t.skip(1).skip(i - 1 + m) =~= t.skip(i + m));
        assert(t.skip(1).subrange(0, i - 1) =~= t.subrange(1, i));
        assert(seq![t[0]] + (t.subrange(1, i) + to + spec_replace(t.skip(i + m), pat, to)) =~= t
            .subrange(0, i) + to + spec_replace(t.skip(i + m), pat, to));
    }
}

proof fn lemma_replace_none(t: Seq<char>, pat: Seq<char>, to: Seq<char>)
    requires
        pat.len() >= 1,
        forall|k: int| 0 <= k ==> !spec_match_at(t, pat, k),
    ensures
        spec_replace(t, pat, to) == t,
    decreases t.len(),
{
    if t.len() >= pat.len() {
        assert(!spec_match_at(t, pat, 0));
        assert(t.subrange(0, pat.len() as int) != pat);
        assert forall|k: int| 0 <= k implies !spec_match_at(t.skip(1), pat, k) by {
            lemma_match_shift(t, pat, 1, k);
        }
        lemma_replace_none(t.skip(1), pat, to);
        assert(seq![t[0]] + t.skip(1) =~= t);
    }
}

fn match_at(s: &str, pat: &str, i: usize) -> (r: bool)
    requires
        i + pat@.len() <= s@.len(),
        s@.len() <= usize::MAX,
    ensures
        r == spec_match_at(s@, pat@, i as int),
{
    let m = pat.unicode_len();
    let mut j: usize = 0;
    while j < m
        invariant
            j <= m,
            m == pat@.len(),
            i + m <= s@.len(),
            s@.len() <= usize::MAX,
            forall|k: int| 0 <= k < j ==> s@[i + k] == pat@[k],
        decreases m - j,
    {
        if s.get_char(i + j) != pat.get_char(j) {
            proof {
                assert(s@.subrange(i as int, i + m as int)[j as int] == s@[i + j]);
                assert(s@.subrange(i as int, i + m as int) != pat@);
            }
            return false;
        }
        j += 1;
    }
    proof {
        assert(s@.subrange(i as int, i + m as int) =~= pat@);
    }
    true
}

fn find_from(s: &str, pat: &str, from: usize) -> (r: Option<usize>)
    requires
        pat@.len() >= 1,
        from <= s@.len(),
    ensures
        match r {
            Some(i) => from <= i && spec_match_at(s@, pat@, i as int) && forall|k: int|
                from <= k < i ==> !spec_match_at(s@, pat@, k),
            None => forall|k: int| from <= k ==> !spec_match_at(s@, pat@, k),
        },
{
    let n = s.unicode_len();
    let m = pat.unicode_len();
    if m > n {
        return None;
    }
    let mut i: usize = from;
    while i <= n - m
        invariant
            from <= i,
            i <= n,
            m <= n,
            n == s@.len(),
            m == pat@.len(),
            m >= 1,
            forall|k: int| from <= k < i ==> !spec_match_at(s@, pat@, k),
        decreases n - i,
    {
        if match_at(s, pat, i) {
            return Some(i);
        }
        i += 1;
    }
    None
}

/// Replaces every non-overlapping occurrence of `pat` in `s` with `to`,
/// scanning left to right.
pub fn replace_all(s: &str, pat: &str, to: &str) -> (r: String)
    requires
        pat@.len() >= 1,
    ensures
        r@ == spec_replace(s@, pat@, to@),
{
    let n = s.unicode_len();
    let m = pat.unicode_len();
    let mut out = String::new();
    let mut cur: usize = 0;
    proof {
        assert(s@.skip(0) =~= s@);
        assert(out@ + spec_replace(s@, pat@, to@) =~= spec_replace(s@, pat@, to@));
    }
    loop
        invariant
            cur <= n,
            n == s@.len(),
            m == pat@.len(),
            m >= 1,
            spec_replace(s@, pat@, to@) == out@ + spec_replace(s@.skip(cur as int), pat@, to@),
        decreases n - cur,
    {
        let found = find_from(s, pat, cur);
        match found {
            None => {
                proof {
                    let t = s@.skip(cur as int);
                    assert forall|k: int| 0 <= k implies !spec_match_at(t, pat@, k) by {
                        lemma_match_shift(s@, pat@, cur as int, k);
                    }
                    lemma_replace_none(t, pat@, to@);
                }
                out.append(s.substring_char(cur, n));
                proof {
                    assert(out@ =~= spec_replace(s@, pat@, to@));
                }
                return out;
            },
            Some(i) => {
                proof {
                    let t = s@.skip(cur as int);
                    let j = i - cur;
                    assert forall|k: int| 0 <= k < j implies !spec_match_at(t, pat@, k) by {
                        lemma_match_shift(s@, pat@, cur as int, k);
                    }
                    lemma_match_shift(s@, pat@, cur as int, j);
                    assert(spec_match_at(t, pat@, j));
                    lemma_replace_step(t, pat@, to@, j);
                    assert(t.subrange(0, j) =~= s@.subrange(cur as int, i as int));
                    assert(t.skip(j + m) =~= s@.skip(i + m));
                }
                out.append(s.substring_char(cur, i));
                out.append(to);
                proof {
                    assert(spec_replace(s@, pat@, to@) == out@ + spec_replace(
                        s@.skip(i + m),
                        pat@,
                        to@,
                    ));
                }
                cur = i + m;
            },
        }
    }
}

/// The suffix of `s` after its last '/'; `s` itself when it has no '/',
/// empty when `s` ends with '/'.
pub open spec fn spec_last_segment(s: Seq<char>) -> Seq<char>
    decreases s.len(),
{
    if s.len() == 0 {
        s
    } else if s[s.len() - 1] == '/' {
        Seq::empty()
    } else {
        spec_last_segment(s.drop_last()) + seq![s.last()]
    }
}

/// Extracts the last '/'-separated segment of `s`: the filename part
/// of a URL or path.
pub fn last_segment(s: &str) -> (r: String)
    ensures
        r@ == spec_last_segment(s@),
{
    let n = s.unicode_len();
    let mut i: usize = n;
    proof {
        assert(s@.subrange(0, n as int) =~= s@);
        assert(s@.skip(n as int) =~= Seq::<char>::empty());
    }
    while i > 0
        invariant
            i <= n,
            n == s@.len(),
            spec_last_segment(s@) == spec_last_segment(s@.subrange(0, i as int)) + s@.skip(
                i as int,
            ),
        decreases i,
    {
        if s.get_char(i - 1) == '/' {
            let r = String::from_str(s.substring_char(i, n));
            proof {
                let t = s@.subrange(0, i as int);
                assert(t[t.len() - 1] == '/');
                assert(spec_last_segment(t) =~= Seq::<char>::empty());
                assert(r@ =~= spec_last_segment(s@));
            }
            return r;
        }
        proof {
            let t = s@.subrange(0, i as int);
            assert(t.drop_last() =~= s@.subrange(0, i - 1));
            assert(t.last() == s@[i - 1]);
            assert(spec_last_segment(t) == spec_last_segment(s@.subrange(0, i - 1)) + seq![
                s@[i - 1],
            ]);
            assert(spec_last_segment(s@.subrange(0, i - 1)) + seq![s@[i - 1]] + s@.skip(i as int)
                =~= spec_last_segment(s@.subrange(0, i - 1)) + s@.skip(i - 1));
        }
        i -= 1;
    }
    proof {
        assert(s@.subrange(0, 0) =~= Seq::<char>::empty());
        assert(spec_last_segment(Seq::<char>::empty()) + s@.skip(0) =~= s@);
    }
    String::from_str(s)
}

} // verus!
