//! Verified text utilities: placeholder replacement, joining, splitting and
//! ASCII case folding, each stated over sequences of characters.

use vstd::prelude::*;

verus! {

/// The result of replacing every occurrence of `pat` in `s` by `to`, scanning
/// left to right over non-overlapping matches. When `pat` is empty, `s` is
/// returned unchanged.
pub open spec fn replaced(s: Seq<char>, pat: Seq<char>, to: Seq<char>) -> Seq<char>
    decreases s.len(),
{
    if pat.len() == 0 || s.len() < pat.len() {
        s
    } else if s.take(pat.len() as int) == pat {
        to + replaced(s.skip(pat.len() as int), pat, to)
    } else {
        seq![s[0]] + replaced(s.skip(1), pat, to)
    }
}

/// True when `pat` occurs in `s` starting at position `at`.
pub open spec fn occurrence_at(s: Seq<char>, pat: Seq<char>, at: int) -> bool {
    &&& 0 <= at
    &&& at + pat.len() <= s.len()
    &&& s.subrange(at, at + pat.len() as int) == pat
}

/// True when `sub` occurs somewhere in `s`.
pub open spec fn has_substring(s: Seq<char>, sub: Seq<char>) -> bool {
    exists|at: int| occurrence_at(s, sub, at)
}

/// True when `pat` occurs in `s` starting at character index `at`.
fn matches_at(s: &str, pat: &str, at: usize, s_len: usize, pat_len: usize) -> (r: bool)
    requires
        s_len == s@.len(),
        pat_len == pat@.len(),
        at <= s_len,
    ensures
        r == occurrence_at(s@, pat@, at as int),
{
    if pat_len > s_len - at {
        return false;
    }
    let mut j: usize = 0;
    while j < pat_len
        invariant
            s_len == s@.len(),
            pat_len == pat@.len(),
            at + pat_len <= s_len,
            j <= pat_len,
            forall|k: int| 0 <= k < j ==> s@[at + k] == pat@[k],
        decreases pat_len - j,
    {
        if s.get_char(at + j) != pat.get_char(j) {
            proof {
                assert(s@.subrange(at as int, at + pat@.len() as int)[j as int] != pat@[j as int]);
            }
            return false;
        }
        j = j + 1;
    }
    proof {
        assert(s@.subrange(at as int, at + pat@.len() as int) =~= pat@);
    }
    true
}

/// Replaces every occurrence of `pat` in `s` by `to`, scanning left to right
/// over non-overlapping matches.
pub fn replace_all(s: &str, pat: &str, to: &str) -> (r: String)
    requires
        pat@.len() > 0,
    ensures
        r@ == replaced(s@, pat@, to@),
{
    let s_len = s.unicode_len();
    let pat_len = pat.unicode_len();
    let mut out = String::new();
    let mut i: usize = 0;
    proof {
        assert(s@.skip(0) =~= s@);
        assert(out@ + replaced(s@, pat@, to@) =~= replaced(s@, pat@, to@));
    }
    while i < s_len
        invariant
            pat@.len() > 0,
            s_len == s@.len(),
            pat_len == pat@.len(),
            i <= s_len,
            replaced(s@, pat@, to@) == out@ + replaced(s@.skip(i as int), pat@, to@),
        decreases s_len - i,
    {
        if matches_at(s, pat, i, s_len, pat_len) {
            proof {
                assert(s@.skip(i as int).take(pat@.len() as int) =~= s@.subrange(
                    i as int,
                    i + pat@.len() as int,
                ));
                assert(s@.skip(i as int).skip(pat@.len() as int) =~= s@.skip(
                    i + pat@.len() as int,
                ));
                assert(out@ + (to@ + replaced(s@.skip(i + pat@.len() as int), pat@, to@)) =~= (out@
                    + to@) + replaced(s@.skip(i + pat@.len() as int), pat@, to@));
            }
            out.append(to);
            i = i + pat_len;
        } else {
            let c = s.substring_char(i, i + 1);
            proof {
                let tail = s@.skip(i as int);
                assert(c@ =~= seq![s@[i as int]]);
                if tail.len() < pat@.len() {
                    assert(tail =~= seq![s@[i as int]] + s@.skip(i + 1));
                    assert(replaced(tail, pat@, to@) == tail);
                    assert(s@.skip(i + 1).len() < pat@.len());
                    assert(replaced(s@.skip(i + 1), pat@, to@) == s@.skip(i + 1));
                } else {
                    assert(tail.take(pat@.len() as int) =~= s@.subrange(
                        i as int,
                        i + pat@.len() as int,
                    ));
                    assert(tail.take(pat@.len() as int) != pat@);
                    assert(tail[0] == s@[i as int]);
                    assert(tail.skip(1) =~= s@.skip(i + 1));
                }
                assert(replaced(tail, pat@, to@) == seq![s@[i as int]] + replaced(
                    s@.skip(i + 1),
                    pat@,
                    to@,
                ));
                assert(out@ + (seq![s@[i as int]] + replaced(s@.skip(i + 1), pat@, to@)) =~= (out@
                    + seq![s@[i as int]]) + replaced(s@.skip(i + 1), pat@, to@));
            }
            out.append(c);
            i = i + 1;
        }
    }
    proof {
        assert(s@.skip(s_len as int) =~= Seq::<char>::empty());
        assert(replaced(Seq::<char>::empty(), pat@, to@) == Seq::<char>::empty());
        assert(out@ + Seq::<char>::empty() =~= out@);
    }
    out
}

/// The pieces of `parts` glued together with `sep` between neighbours.
pub open spec fn joined(parts: Seq<Seq<char>>, sep: Seq<char>) -> Seq<char>
    decreases parts.len(),
{
    if parts.len() == 0 {
        Seq::empty()
    } else if parts.len() == 1 {
        parts[0]
    } else {
        parts[0] + sep + joined(parts.skip(1), sep)
    }
}

proof fn lemma_joined_push(parts: Seq<Seq<char>>, sep: Seq<char>, x: Seq<char>)
    ensures
        joined(parts.push(x), sep) == if parts.len() == 0 {
            x
        } else {
            joined(parts, sep) + sep + x
        },
    decreases parts.len(),
{
    if parts.len() == 0 {
        assert(parts.push(x)[0] == x);
    } else if parts.len() == 1 {
        assert(parts.push(x).skip(1) =~= seq![x]);
        assert(joined(seq![x], sep) == x);
        assert(parts.push(x)[0] == parts[0]);
    } else {
        lemma_joined_push(parts.skip(1), sep, x);
        assert(parts.push(x).skip(1) =~= parts.skip(1).push(x));
        assert(parts.push(x)[0] == parts[0]);
        assert(parts[0] + sep + (joined(parts.skip(1), sep) + sep + x) =~= (parts[0] + sep
            + joined(parts.skip(1), sep)) + sep + x);
    }
}

/// Joins the strings of `parts` with `sep` between neighbours.
pub fn join_all(parts: &Vec<String>, sep: &str) -> (r: String)
    ensures
        r@ == joined(parts.deep_view(), sep@),
{
    let mut out = String::new();
    let mut i: usize = 0;
    proof {
        assert(parts.deep_view().take(0) =~= Seq::<Seq<char>>::empty());
    }
    while i < parts.len()
        invariant
            i <= parts@.len(),
            out@ == joined(parts.deep_view().take(i as int), sep@),
        decreases parts@.len() - i,
    {
        if i > 0 {
            out.append(sep);
        }
        out.append(parts[i].as_str());
        proof {
            lemma_joined_push(parts.deep_view().take(i as int), sep@, parts@[i as int]@);
            assert(parts.deep_view().take(i + 1) =~= parts.deep_view().take(i as int).push(
                parts@[i as int]@,
            ));
        }
        i = i + 1;
    }
    proof {
        assert(parts.deep_view().take(parts@.len() as int) =~= parts.deep_view());
    }
    out
}

/// The segments of `s` delimited by `sep`: empty segments between neighbouring
/// separators, and at the ends, are kept, so the result always holds at least
/// one segment.
pub open spec fn split_on(s: Seq<char>, sep: char) -> Seq<Seq<char>>
    decreases s.len(),
{
    if s.len() == 0 {
        seq![Seq::<char>::empty()]
    } else if s[0] == sep {
        seq![Seq::<char>::empty()] + split_on(s.skip(1), sep)
    } else {
        let rest = split_on(s.skip(1), sep);
        seq![seq![s[0]] + rest[0]] + rest.skip(1)
    }
}

proof fn lemma_split_on_nonempty(s: Seq<char>, sep: char)
    ensures
        split_on(s, sep).len() >= 1,
    decreases s.len(),
{
    if s.len() > 0 {
        lemma_split_on_nonempty(s.skip(1), sep);
    }
}

/// Splits `s` on every occurrence of `sep`, keeping empty segments.
pub fn split_all(s: &str, sep: char) -> (r: Vec<String>)
    ensures
        r.deep_view() == split_on(s@, sep),
{
    let s_len = s.unicode_len();
    let mut out: Vec<String> = Vec::new();
    let mut cur = String::new();
    let mut i: usize = 0;
    proof {
        lemma_split_on_nonempty(s@, sep);
        assert(s@.skip(0) =~= s@);
        assert(out.deep_view() + seq![cur@ + split_on(s@, sep)[0]] + split_on(s@, sep).skip(1)
            =~= split_on(s@, sep));
    }
    while i < s_len
        invariant
            s_len == s@.len(),
            i <= s_len,
            split_on(s@, sep) == out.deep_view() + seq![cur@ + split_on(s@.skip(i as int), sep)[0]]
                + split_on(s@.skip(i as int), sep).skip(1),
        decreases s_len - i,
    {
        let c = s.get_char(i);
        proof {
            let tail = s@.skip(i as int);
            lemma_split_on_nonempty(s@.skip(i + 1), sep);
            assert(tail[0] == s@[i as int]);
            assert(tail.skip(1) =~= s@.skip(i + 1));
        }
        if c == sep {
            let done = cur;
            cur = String::new();
            out.push(done);
            proof {
                let rest = split_on(s@.skip(i + 1), sep);
                assert(split_on(s@.skip(i as int), sep).skip(1) =~= rest);
                assert(out.deep_view() =~= out.deep_view().take(out@.len() - 1).push(done@));
                assert(out.deep_view().take(out@.len() - 1) + seq![done@ + Seq::<char>::empty()]
                    + (seq![Seq::<char>::empty()] + rest).skip(1) =~= out.deep_view() + seq![
                    cur@ + rest[0]] + rest.skip(1));
                assert(done@ + Seq::<char>::empty() =~= done@);
            }
        } else {
            let piece = s.substring_char(i, i + 1);
            proof {
                let rest = split_on(s@.skip(i + 1), sep);
                assert(piece@ =~= seq![s@[i as int]]);
                assert(split_on(s@.skip(i as int), sep)[0] == seq![s@[i as int]] + rest[0]);
                assert(split_on(s@.skip(i as int), sep).skip(1) =~= rest.skip(1));
                assert(cur@ + (seq![s@[i as int]] + rest[0]) =~= (cur@ + seq![s@[i as int]])
                    + rest[0]);
            }
            cur.append(piece);
        }
        i = i + 1;
    }
    proof {
        assert(s@.skip(s_len as int) =~= Seq::<char>::empty());
        assert(split_on(Seq::<char>::empty(), sep) =~= seq![Seq::<char>::empty()]);
        assert(cur@ + Seq::<char>::empty() =~= cur@);
    }
    out.push(cur);
    proof {
        assert(out.deep_view() =~= out.deep_view().take(out@.len() - 1).push(cur@));
        assert(out.deep_view().take(out@.len() - 1) + seq![cur@] + Seq::<Seq<char>>::empty()
            =~= out.deep_view());
    }
    out
}

/// True when no character of `s` equals `c`; a string free of a pattern's
/// first character cannot hold a match of that pattern.
pub open spec fn free_of(s: Seq<char>, c: char) -> bool {
    forall|i: int| 0 <= i < s.len() ==> s[i] != c
}

/// Replacement walks over a prefix that is free of the pattern's first
/// character without touching it.
pub proof fn lemma_replaced_skips_clean(x: Seq<char>, rest: Seq<char>, pat: Seq<char>, to: Seq<char>)
    requires
        pat.len() > 0,
        free_of(x, pat[0]),
    ensures
        replaced(x + rest, pat, to) == x + replaced(rest, pat, to),
    decreases x.len(),
{
    if x.len() == 0 {
        assert(x + rest =~= rest);
        assert(x + replaced(rest, pat, to) =~= replaced(rest, pat, to));
    } else {
        let s = x + rest;
        assert(s[0] == x[0]);
        if s.len() < pat.len() {
            assert(rest.len() < pat.len());
            assert(x + replaced(rest, pat, to) =~= s);
        } else {
            assert(s.take(pat.len() as int)[0] == x[0]);
            assert(s.take(pat.len() as int) != pat);
            assert(s.skip(1) =~= x.skip(1) + rest);
            assert(free_of(x.skip(1), pat[0]));
            lemma_replaced_skips_clean(x.skip(1), rest, pat, to);
            assert(seq![x[0]] + (x.skip(1) + replaced(rest, pat, to)) =~= x + replaced(
                rest,
                pat,
                to,
            ));
        }
    }
}

/// Replacement at a match substitutes the replacement text and goes on after
/// the match.
pub proof fn lemma_replaced_at_match(rest: Seq<char>, pat: Seq<char>, to: Seq<char>)
    requires
        pat.len() > 0,
    ensures
        replaced(pat + rest, pat, to) == to + replaced(rest, pat, to),
{
    let s = pat + rest;
    assert(s.take(pat.len() as int) =~= pat);
    assert(s.skip(pat.len() as int) =~= rest);
}

/// Replacement steps over a head that the pattern does not match — the head
/// is long enough to settle the mismatch by itself, and past its first
/// character no new match can start in it.
pub proof fn lemma_replaced_steps_over(
    head: Seq<char>,
    rest: Seq<char>,
    pat: Seq<char>,
    to: Seq<char>,
)
    requires
        pat.len() > 0,
        head.len() >= pat.len(),
        head.take(pat.len() as int) != pat,
        free_of(head.skip(1), pat[0]),
    ensures
        replaced(head + rest, pat, to) == head + replaced(rest, pat, to),
{
    let s = head + rest;
    assert(s.take(pat.len() as int) =~= head.take(pat.len() as int));
    assert(s.skip(1) =~= head.skip(1) + rest);
    lemma_replaced_skips_clean(head.skip(1), rest, pat, to);
    assert(s[0] == head[0]);
    assert(seq![head[0]] + (head.skip(1) + replaced(rest, pat, to)) =~= head + replaced(
        rest,
        pat,
        to,
    ));
}

/// Replacement leaves a string that is free of the pattern's first character
/// unchanged.
pub proof fn lemma_replaced_clean(x: Seq<char>, pat: Seq<char>, to: Seq<char>)
    requires
        pat.len() > 0,
        free_of(x, pat[0]),
    ensures
        replaced(x, pat, to) == x,
{
    lemma_replaced_skips_clean(x, Seq::<char>::empty(), pat, to);
    assert(x + Seq::<char>::empty() =~= x);
}

/// Substitution reaches every occurrence of the pattern: in a template made of
/// clean pieces around two occurrences, both are replaced by the substitution
/// text, verbatim, and the pieces stand unchanged.
pub proof fn lemma_replaced_two_occurrences(
    a: Seq<char>,
    b: Seq<char>,
    c: Seq<char>,
    pat: Seq<char>,
    to: Seq<char>,
)
    requires
        pat.len() > 0,
        free_of(a, pat[0]),
        free_of(b, pat[0]),
        free_of(c, pat[0]),
    ensures
        replaced(a + pat + b + pat + c, pat, to) == a + to + b + to + c,
{
    let tail1 = pat + (b + pat + c);
    assert(a + pat + b + pat + c =~= a + tail1);
    lemma_replaced_skips_clean(a, tail1, pat, to);
    let tail2 = b + (pat + c);
    assert(tail1 =~= pat + tail2);
    lemma_replaced_at_match(tail2, pat, to);
    lemma_replaced_skips_clean(b, pat + c, pat, to);
    lemma_replaced_at_match(c, pat, to);
    lemma_replaced_clean(c, pat, to);
    assert(a + (to + (b + (to + c))) =~= a + to + b + to + c);
}

/// A string occurs in itself.
proof fn lemma_has_substring_self(s: Seq<char>)
    ensures
        has_substring(s, s),
{
    assert(s.subrange(0, s.len() as int) =~= s);
    assert(occurrence_at(s, s, 0));
}

/// An occurrence survives text glued on to the left.
pub proof fn lemma_has_substring_extend_left(pre: Seq<char>, s: Seq<char>, sub: Seq<char>)
    requires
        has_substring(s, sub),
    ensures
        has_substring(pre + s, sub),
{
    let at = choose|at: int| occurrence_at(s, sub, at);
    assert((pre + s).subrange(pre.len() + at, pre.len() + at + sub.len() as int) =~= s.subrange(
        at,
        at + sub.len() as int,
    ));
    assert(occurrence_at(pre + s, sub, pre.len() + at));
}

/// An occurrence survives text glued on to the right.
pub proof fn lemma_has_substring_extend_right(s: Seq<char>, post: Seq<char>, sub: Seq<char>)
    requires
        has_substring(s, sub),
    ensures
        has_substring(s + post, sub),
{
    let at = choose|at: int| occurrence_at(s, sub, at);
    assert((s + post).subrange(at, at + sub.len() as int) =~= s.subrange(at, at + sub.len() as int));
    assert(occurrence_at(s + post, sub, at));
}

/// A joined string holds every one of its parts.
pub proof fn lemma_joined_has_parts(parts: Seq<Seq<char>>, sep: Seq<char>, k: int)
    requires
        0 <= k < parts.len(),
    ensures
        has_substring(joined(parts, sep), parts[k]),
    decreases parts.len(),
{
    if parts.len() == 1 {
        lemma_has_substring_self(parts[0]);
    } else if k == 0 {
        lemma_has_substring_self(parts[0]);
        lemma_has_substring_extend_right(parts[0], sep + joined(parts.skip(1), sep), parts[0]);
        assert(parts[0] + (sep + joined(parts.skip(1), sep)) =~= joined(parts, sep));
    } else {
        lemma_joined_has_parts(parts.skip(1), sep, k - 1);
        lemma_has_substring_extend_left(parts[0] + sep, joined(parts.skip(1), sep), parts[k]);
        assert((parts[0] + sep) + joined(parts.skip(1), sep) =~= joined(parts, sep));
    }
}

/// ASCII case folding of one character: the letters `A` to `Z` fold to their
/// lower-case forms, every other character is unchanged.
pub open spec fn lower_char(c: char) -> char {
    match c {
        'A' => 'a',
        'B' => 'b',
        'C' => 'c',
        'D' => 'd',
        'E' => 'e',
        'F' => 'f',
        'G' => 'g',
        'H' => 'h',
        'I' => 'i',
        'J' => 'j',
        'K' => 'k',
        'L' => 'l',
        'M' => 'm',
        'N' => 'n',
        'O' => 'o',
        'P' => 'p',
        'Q' => 'q',
        'R' => 'r',
        'S' => 's',
        'T' => 't',
        'U' => 'u',
        'V' => 'v',
        'W' => 'w',
        'X' => 'x',
        'Y' => 'y',
        'Z' => 'z',
        _ => c,
    }
}

/// ASCII case folding of a whole string, character by character.
pub open spec fn lowered(s: Seq<char>) -> Seq<char> {
    Seq::new(s.len(), |i: int| lower_char(s[i]))
}

/// Folding twice is the same as folding once.
pub proof fn lemma_lowered_idempotent(s: Seq<char>)
    ensures
        lowered(lowered(s)) == lowered(s),
{
    assert(lowered(lowered(s)) =~= lowered(s));
}

/// ASCII case folding of one character.
pub fn ascii_lower(c: char) -> (r: char)
    ensures
        r == lower_char(c),
{
    match c {
        'A' => 'a',
        'B' => 'b',
        'C' => 'c',
        'D' => 'd',
        'E' => 'e',
        'F' => 'f',
        'G' => 'g',
        'H' => 'h',
        'I' => 'i',
        'J' => 'j',
        'K' => 'k',
        'L' => 'l',
        'M' => 'm',
        'N' => 'n',
        'O' => 'o',
        'P' => 'p',
        'Q' => 'q',
        'R' => 'r',
        'S' => 's',
        'T' => 't',
        'U' => 'u',
        'V' => 'v',
        'W' => 'w',
        'X' => 'x',
        'Y' => 'y',
        'Z' => 'z',
        _ => c,
    }
}

/// The lower-case form of an ASCII upper-case letter, as a one-character
/// string piece; any other character has no piece here.
fn lower_piece(c: char) -> (r: Option<&'static str>)
    ensures
        r matches Some(s) ==> s@ == seq![lower_char(c)],
        r is None ==> lower_char(c) == c,
{
    proof {
        reveal_strlit("a");
        reveal_strlit("b");
        reveal_strlit("c");
        reveal_strlit("d");
        reveal_strlit("e");
        reveal_strlit("f");
        reveal_strlit("g");
        reveal_strlit("h");
        reveal_strlit("i");
        reveal_strlit("j");
        reveal_strlit("k");
        reveal_strlit("l");
        reveal_strlit("m");
        reveal_strlit("n");
        reveal_strlit("o");
        reveal_strlit("p");
        reveal_strlit("q");
        reveal_strlit("r");
        reveal_strlit("s");
        reveal_strlit("t");
        reveal_strlit("u");
        reveal_strlit("v");
        reveal_strlit("w");
        reveal_strlit("x");
        reveal_strlit("y");
        reveal_strlit("z");
    }
    match c {
        'A' => Some("a"),
        'B' => Some("b"),
        'C' => Some("c"),
        'D' => Some("d"),
        'E' => Some("e"),
        'F' => Some("f"),
        'G' => Some("g"),
        'H' => Some("h"),
        'I' => Some("i"),
        'J' => Some("j"),
        'K' => Some("k"),
        'L' => Some("l"),
        'M' => Some("m"),
        'N' => Some("n"),
        'O' => Some("o"),
        'P' => Some("p"),
        'Q' => Some("q"),
        'R' => Some("r"),
        'S' => Some("s"),
        'T' => Some("t"),
        'U' => Some("u"),
        'V' => Some("v"),
        'W' => Some("w"),
        'X' => Some("x"),
        'Y' => Some("y"),
        'Z' => Some("z"),
        _ => None,
    }
}

/// ASCII case folding of a whole string.
pub fn lower_all(s: &str) -> (r: String)
    ensures
        r@ == lowered(s@),
{
    let s_len = s.unicode_len();
    let mut out = String::new();
    let mut i: usize = 0;
    proof {
        assert(out@ =~= lowered(s@).take(0));
    }
    while i < s_len
        invariant
            s_len == s@.len(),
            i <= s_len,
            out@ == lowered(s@).take(i as int),
        decreases s_len - i,
    {
        let c = s.get_char(i);
        match lower_piece(c) {
            Some(piece) => {
                out.append(piece);
            },
            None => {
                let piece = s.substring_char(i, i + 1);
                proof {
                    assert(piece@ =~= seq![s@[i as int]]);
                }
                out.append(piece);
            },
        }
        proof {
            assert(out@ =~= lowered(s@).take(i + 1));
        }
        i = i + 1;
    }
    proof {
        assert(lowered(s@).take(s_len as int) =~= lowered(s@));
    }
    out
}

/// Compares two strings up to ASCII case.
pub fn eq_ignore_ascii_case(a: &str, b: &str) -> (r: bool)
    ensures
        r == (lowered(a@) == lowered(b@)),
{
    let a_len = a.unicode_len();
    let b_len = b.unicode_len();
    if a_len != b_len {
        proof {
            assert(lowered(a@).len() != lowered(b@).len());
        }
        return false;
    }
    let mut i: usize = 0;
    while i < a_len
        invariant
            a_len == a@.len(),
            a@.len() == b@.len(),
            i <= a_len,
            forall|k: int| 0 <= k < i ==> lower_char(a@[k]) == lower_char(b@[k]),
        decreases a_len - i,
    {
        if ascii_lower(a.get_char(i)) != ascii_lower(b.get_char(i)) {
            proof {
                assert(lowered(a@)[i as int] != lowered(b@)[i as int]);
            }
            return false;
        }
        i = i + 1;
    }
    proof {
        assert(lowered(a@) =~= lowered(b@));
    }
    true
}

} // verus!
