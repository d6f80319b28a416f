//! Literal text operations on character sequences.

use vstd::prelude::*;
use vstd::string::*;

verus! {

/// `s` with every leftmost, non-overlapping occurrence of `pat` replaced by
/// `rep`, scanning from the start; replacements are not scanned again.
pub open spec fn replace_all(s: Seq<char>, pat: Seq<char>, rep: Seq<char>) -> Seq<char>
    decreases s.len(),
{
    if s.len() == 0 {
        Seq::empty()
    } else if 0 < pat.len() <= s.len() && s.subrange(0, pat.len() as int) == pat {
        rep + replace_all(s.skip(pat.len() as int), pat, rep)
    } else {
        seq![s[0]] + replace_all(s.skip(1), pat, rep)
    }
}

/// Whether `pat` occurs in `s` starting at position `i`.
pub open spec fn occurs_at(s: Seq<char>, pat: Seq<char>, i: int) -> bool {
    0 <= i && i + pat.len() <= s.len() && s.subrange(i, i + pat.len()) == pat
}

/// The characters of `s`, one by one.
pub fn chars_of(s: &str) -> (r: Vec<char>)
    ensures
        r@ == s@,
{
    let n = s.unicode_len();
    let mut r: Vec<char> = Vec::new();
    let mut i: usize = 0;
    while i < n
        invariant
            n == s@.len(),
            i <= n,
            r@ == s@.subrange(0, i as int),
        decreases n - i,
    {
        r.push(s.get_char(i));
        i = i + 1;
    }
    assert(r@ =~= s@);
    r
}

fn matches_at(s: &Vec<char>, pat: &Vec<char>, i: usize) -> (r: bool)
    requires
        i <= s@.len(),
    ensures
        r == occurs_at(s@, pat@, i as int),
{
    if pat.len() > s.len() - i {
        return false;
    }
    let mut k: usize = 0;
    while k < pat.len()
        invariant
            i + pat@.len() <= s@.len(),
            s@.len() == s.len(),
            k <= pat@.len(),
            forall|j: int| 0 <= j < k ==> s@[i + j] == pat@[j],
        decreases pat@.len() - k,
    {
        if s[i + k] != pat[k] {
            assert(s@.subrange(i as int, i + pat@.len())[k as int] != pat@[k as int]);
            return false;
        }
        k = k + 1;
    }
    assert(s@.subrange(i as int, i + pat@.len()) =~= pat@);
    true
}

/// Replaces every occurrence of `pat` in `s` by `rep`, literally and in one
/// pass from left to right.
pub fn replace(s: &str, pat: &str, rep: &str) -> (r: String)
    requires
        pat@.len() > 0,
    ensures
        r@ == replace_all(s@, pat@, rep@),
{
    let cs = chars_of(s);
    let ps = chars_of(pat);
    let n = cs.len();
    let mut out = String::new();
    let mut start: usize = 0;
    let mut i: usize = 0;
    assert(s@.skip(0) =~= s@);
    while i < n
        invariant
            n == s@.len(),
            cs@ == s@,
            ps@ == pat@,
            pat@.len() > 0,
            start <= i <= n,
            out@ + s@.subrange(start as int, i as int) + replace_all(s@.skip(i as int), pat@, rep@)
                == replace_all(s@, pat@, rep@),
        decreases n - i,
    {
        let ghost rest = s@.skip(i as int);
        if matches_at(&cs, &ps, i) {
            assert(rest.subrange(0, pat@.len() as int) =~= s@.subrange(i as int, i + pat@.len()));
            assert(rest.skip(pat@.len() as int) =~= s@.skip(i + pat@.len()));
            let run = s.substring_char(start, i);
            out.append(run);
            out.append(rep);
            i = i + ps.len();
            start = i;
            assert(s@.subrange(start as int, i as int) =~= Seq::<char>::empty());
        } else {
            proof {
                if 0 < pat@.len() <= rest.len() {
                    assert(rest.subrange(0, pat@.len() as int) =~= s@.subrange(i as int, i + pat@.len()));
                }
                assert(rest.skip(1) =~= s@.skip(i + 1));
                assert(s@.subrange(start as int, i + 1) =~= s@.subrange(start as int, i as int) + seq![rest[0]]);
            }
            i = i + 1;
        }
    }
    let run = s.substring_char(start, n);
    out.append(run);
    assert(replace_all(s@.skip(n as int), pat@, rep@) =~= Seq::<char>::empty());
    assert(out@ =~= replace_all(s@, pat@, rep@));
    out
}

/// What follows the first line break of `s`; nothing if `s` has none.
pub open spec fn after_first_line(s: Seq<char>) -> Seq<char>
    decreases s.len(),
{
    if s.len() == 0 {
        Seq::empty()
    } else if s[0] == '\n' {
        s.skip(1)
    } else {
        after_first_line(s.skip(1))
    }
}

/// The lines of `s` joined by single `'\n'`s. A line ends at `'\n'`, and a
/// `'\r'` just before that `'\n'` is part of the break, so `"\r\n"` becomes
/// `'\n'` and the break that ends the last line is dropped.
pub open spec fn rejoin_lines(s: Seq<char>) -> Seq<char>
    decreases s.len(),
{
    if s.len() == 0 {
        Seq::empty()
    } else if s.len() == 1 && s[0] == '\n' {
        Seq::empty()
    } else if s.len() == 2 && s[0] == '\r' && s[1] == '\n' {
        Seq::empty()
    } else if s.len() >= 2 && s[0] == '\r' && s[1] == '\n' {
        seq!['\n'] + rejoin_lines(s.skip(2))
    } else {
        seq![s[0]] + rejoin_lines(s.skip(1))
    }
}

/// The lines of `s` after the first, joined by `'\n'`.
pub open spec fn without_first_line(s: Seq<char>) -> Seq<char> {
    rejoin_lines(after_first_line(s))
}

fn first_line_end(cs: &Vec<char>) -> (r: usize)
    ensures
        r <= cs@.len(),
        cs@.skip(r as int) == after_first_line(cs@),
{
    let n = cs.len();
    let mut i: usize = 0;
    assert(cs@.skip(0) =~= cs@);
    while i < n
        invariant
            n == cs@.len(),
            i <= n,
            after_first_line(cs@.skip(i as int)) == after_first_line(cs@),
        decreases n - i,
    {
        assert(cs@.skip(i as int).skip(1) =~= cs@.skip(i + 1));
        if cs[i] == '\n' {
            return i + 1;
        }
        i = i + 1;
    }
    assert(cs@.skip(n as int) =~= Seq::<char>::empty());
    n
}

/// Drops the first line of `s` and joins the remaining lines by `'\n'`.
pub fn drop_first_line(s: &str) -> (r: String)
    ensures
        r@ == without_first_line(s@),
{
    let cs = chars_of(s);
    let n = cs.len();
    let k = first_line_end(&cs);
    let mut out = String::new();
    let mut start: usize = k;
    let mut i: usize = k;
    while i < n
        invariant
            n == s@.len(),
            cs@ == s@,
            k <= start <= i <= n,
            s@.skip(k as int) == after_first_line(s@),
            out@ + s@.subrange(start as int, i as int) + rejoin_lines(s@.skip(i as int))
                == without_first_line(s@),
        ensures
            start <= i <= n,
            out@ + s@.subrange(start as int, i as int) == without_first_line(s@),
        decreases n - i,
    {
        let ghost rest = s@.skip(i as int);
        let left = n - i;
        assert(s@.skip(n as int) =~= Seq::<char>::empty());
        if cs[i] == '\n' && left == 1 {
            assert(rest =~= seq!['\n']);
            assert(rejoin_lines(rest) =~= Seq::<char>::empty());
            assert(out@ + s@.subrange(start as int, i as int) + rejoin_lines(rest) =~= out@
                + s@.subrange(start as int, i as int));
            break;
        } else if cs[i] == '\r' && left >= 2 && cs[i + 1] == '\n' {
            if left == 2 {
                assert(rest =~= seq!['\r', '\n']);
                assert(rejoin_lines(rest) =~= Seq::<char>::empty());
                assert(out@ + s@.subrange(start as int, i as int) + rejoin_lines(rest) =~= out@
                    + s@.subrange(start as int, i as int));
                break;
            }
            assert(rest.skip(2) =~= s@.skip(i + 2));
            assert(rejoin_lines(rest) == seq!['\n'] + rejoin_lines(s@.skip(i + 2)));
            let ghost prev = out@ + s@.subrange(start as int, i as int);
            out.append(s.substring_char(start, i));
            let nl = "\n";
            proof {
                reveal_strlit("\n");
                assert(nl@ =~= seq!['\n']);
            }
            out.append(nl);
            assert(out@ =~= prev + seq!['\n']);
            assert(prev + rejoin_lines(rest) =~= out@ + rejoin_lines(s@.skip(i + 2)));
            i = i + 2;
            start = i;
            assert(s@.subrange(start as int, i as int) =~= Seq::<char>::empty());
        } else {
            assert(rest.skip(1) =~= s@.skip(i + 1));
            assert(rejoin_lines(rest) == seq![rest[0]] + rejoin_lines(s@.skip(i + 1)));
            assert(s@.subrange(start as int, i + 1) =~= s@.subrange(start as int, i as int) + seq![rest[0]]);
            assert(out@ + s@.subrange(start as int, i as int) + rejoin_lines(rest) =~= out@
                + s@.subrange(start as int, i + 1) + rejoin_lines(s@.skip(i + 1)));
            i = i + 1;
        }
    }
    out.append(s.substring_char(start, i));
    out
}

/// Whether `s` holds no line-break character.
pub open spec fn single_line(s: Seq<char>) -> bool {
    forall|i: int| 0 <= i < s.len() ==> s[i] != '\n' && s[i] != '\r'
}

proof fn lemma_after_header(h: Seq<char>, rest: Seq<char>)
    requires
        forall|i: int| 0 <= i < h.len() ==> h[i] != '\n',
    ensures
        after_first_line(h + seq!['\n'] + rest) == rest,
    decreases h.len(),
{
    let s = h + seq!['\n'] + rest;
    if h.len() == 0 {
        assert(s.skip(1) =~= rest);
    } else {
        assert(s.skip(1) =~= h.skip(1) + seq!['\n'] + rest);
        lemma_after_header(h.skip(1), rest);
    }
}

proof fn lemma_rejoin_single_line(b: Seq<char>)
    requires
        single_line(b),
    ensures
        rejoin_lines(b + seq!['\n']) == b,
    decreases b.len(),
{
    let s = b + seq!['\n'];
    if b.len() == 0 {
        assert(s =~= seq!['\n']);
    } else {
        assert(s.skip(1) =~= b.skip(1) + seq!['\n']);
        lemma_rejoin_single_line(b.skip(1));
        assert(seq![b[0]] + b.skip(1) =~= b);
    }
}

/// A script made of a header line and one body line keeps exactly the body
/// line once its first line is dropped.
pub proof fn lemma_drop_header(h: Seq<char>, b: Seq<char>)
    requires
        single_line(h),
        single_line(b),
    ensures
        without_first_line(h + seq!['\n'] + b + seq!['\n']) == b,
{
    assert(h + seq!['\n'] + b + seq!['\n'] =~= h + seq!['\n'] + (b + seq!['\n']));
    lemma_after_header(h, b + seq!['\n']);
    lemma_rejoin_single_line(b);
}

} // verus!
