use vstd::prelude::*;
use crate::text::to_chars;

verus! {

/// A pattern character matches a text character: `.` matches any.
pub open spec fn char_matches(p: char, c: char) -> bool {
    p == '.' || p == c
}

/// Whether pattern `p` matches a prefix of `t`. `x*` takes any number of `x`,
/// a final `$` needs the end of the text, `.` takes any one character.
pub open spec fn match_here(p: Seq<char>, t: Seq<char>) -> bool
    decreases p.len(),
{
    if p.len() == 0 {
        true
    } else if p.len() >= 2 && p[1] == '*' {
        exists|i: int|
            #![trigger t.subrange(i, t.len() as int)]
            0 <= i <= t.len() && (forall|j: int| 0 <= j < i ==> char_matches(p[0], #[trigger] t[j]))
                && match_here(p.subrange(2, p.len() as int), t.subrange(i, t.len() as int))
    } else if p[0] == '$' && p.len() == 1 {
        t.len() == 0
    } else {
        t.len() > 0 && char_matches(p[0], t[0]) && match_here(
            p.subrange(1, p.len() as int),
            t.subrange(1, t.len() as int),
        )
    }
}

/// A leading `^` anchors the pattern at the start; otherwise it may match anywhere.
pub open spec fn regex_match(p: Seq<char>, t: Seq<char>) -> bool {
    if p.len() > 0 && p[0] == '^' {
        match_here(p.subrange(1, p.len() as int), t)
    } else {
        exists|s: int| 0 <= s <= t.len() && match_here(p, #[trigger] t.subrange(s, t.len() as int))
    }
}

fn match_here_at(p: &Vec<char>, pi: usize, t: &Vec<char>, ti: usize) -> (r: bool)
    requires
        pi <= p@.len(),
        ti <= t@.len(),
    ensures
        r == match_here(p@.subrange(pi as int, p@.len() as int), t@.subrange(ti as int, t@.len() as int)),
    decreases p@.len() - pi,
{
    let ghost pp = p@.subrange(pi as int, p@.len() as int);
    let ghost tt = t@.subrange(ti as int, t@.len() as int);
    if pi == p.len() {
        return true;
    }
    if p.len() - pi >= 2 && p[pi + 1] == '*' {
        let c = p[pi];
        assert(pp.len() >= 2 && pp[1] == '*' && pp[0] == c);
        let ghost rest = pp.subrange(2, pp.len() as int);
        assert(rest =~= p@.subrange(pi + 2, p@.len() as int));
        let mut i: usize = ti;
        loop
            invariant
                ti <= i <= t@.len(),
                pi + 2 <= p.len(),
                pp == p@.subrange(pi as int, p@.len() as int),
                pp.len() >= 2 && pp[1] == '*',
                c == pp[0],
                rest == p@.subrange(pi + 2, p@.len() as int),
                rest == pp.subrange(2, pp.len() as int),
                tt == t@.subrange(ti as int, t@.len() as int),
                forall|j: int| 0 <= j < i - ti ==> char_matches(c, #[trigger] tt[j]),
                forall|k: int|
                    0 <= k < i - ti ==> !match_here(rest, #[trigger] tt.subrange(k, tt.len() as int)),
            decreases t@.len() - i,
        {
            assert(tt.subrange(i - ti, tt.len() as int) =~= t@.subrange(i as int, t@.len() as int));
            if match_here_at(p, pi + 2, t, i) {
                assert(match_here(pp, tt)) by {
                    let k = i - ti;
                    assert(0 <= k <= tt.len());
                    assert(forall|j: int| 0 <= j < k ==> char_matches(pp[0], #[trigger] tt[j]));
                    assert(match_here(rest, tt.subrange(k, tt.len() as int)));
                    assert(pp.len() != 0);
                    assert(0 <= k <= tt.len() && (forall|j: int| 0 <= j < k ==> char_matches(pp[0], #[trigger] tt[j]))
                        && match_here(pp.subrange(2, pp.len() as int), tt.subrange(k, tt.len() as int)));
                }
                return true;
            }
            if i == t.len() {
                assert(!match_here(pp, tt)) by {
                    assert forall|k: int|
                        0 <= k <= tt.len() && (forall|j: int| 0 <= j < k ==> char_matches(pp[0], #[trigger] tt[j]))
                            implies !match_here(rest, tt.subrange(k, tt.len() as int)) by {
                        if k < i - ti {
                        }
                    }
                }
                return false;
            }
            if !(c == '.' || c == t[i]) {
                assert(!char_matches(c, tt[i - ti]));
                assert(!match_here(pp, tt)) by {
                    assert forall|k: int|
                        0 <= k <= tt.len() && (forall|j: int| 0 <= j < k ==> char_matches(pp[0], #[trigger] tt[j]))
                            implies !match_here(rest, tt.subrange(k, tt.len() as int)) by {
                        if k < i - ti {
                        } else if k > i - ti {
                            assert(char_matches(pp[0], tt[i - ti]));
                        }
                    }
                }
                return false;
            }
            i = i + 1;
        }
    } else if p[pi] == '$' && p.len() - pi == 1 {
        ti == t.len()
    } else {
        if ti < t.len() && (p[pi] == '.' || p[pi] == t[ti]) {
            assert(pp.subrange(1, pp.len() as int) =~= p@.subrange(pi + 1, p@.len() as int));
            assert(tt.subrange(1, tt.len() as int) =~= t@.subrange(ti + 1, t@.len() as int));
            match_here_at(p, pi + 1, t, ti + 1)
        } else {
            false
        }
    }
}

/// The minimal regular expressions of UART assertions: `^`, `$`, `.` and `*`.
pub fn simple_regex_is_match(pattern: &str, text: &str) -> (r: bool)
    ensures
        r == regex_match(pattern@, text@),
{
    let p = to_chars(pattern);
    let t = to_chars(text);
    if p.len() > 0 && p[0] == '^' {
        assert(t@.subrange(0, t@.len() as int) =~= t@);
        return match_here_at(&p, 1, &t, 0);
    }
    assert(p@.subrange(0, p@.len() as int) =~= p@);
    let mut s: usize = 0;
    loop
        invariant
            s <= t@.len(),
            p@ == pattern@,
            t@ == text@,
            !(p@.len() > 0 && p@[0] == '^'),
            p@.subrange(0, p@.len() as int) == p@,
            forall|k: int| 0 <= k < s ==> !match_here(p@, #[trigger] t@.subrange(k, t@.len() as int)),
        decreases t@.len() - s,
    {
        if match_here_at(&p, 0, &t, s) {
            assert(match_here(p@, t@.subrange(s as int, t@.len() as int)));
            return true;
        }
        if s == t.len() {
            assert forall|k: int| 0 <= k <= t@.len() implies !match_here(p@, #[trigger] t@.subrange(k, t@.len() as int)) by {
                if k < s {
                }
            }
            return false;
        }
        s = s + 1;
    }
}

} // verus!
