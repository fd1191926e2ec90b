//! Character-sequence helpers for the text processing of the library:
//! converting between strings and character vectors, searching, trimming,
//! splitting into words and joining.
use vstd::prelude::*;

verus! {

broadcast use vstd::string::axiom_spec_iter;

/// The characters of `s`.
pub fn chars_of(s: &str) -> (r: Vec<char>)
    ensures
        r@ == s@,
{
    let mut v: Vec<char> = Vec::new();
    for c in it: s.chars()
        invariant
            v@ == it.seq().take(it.index() as int),
    {
        v.push(c);
    }
    v
}

/// Appends `c` to `s` by calling `String::push`; the contract claims what
/// its documentation says, that the string afterwards is the old one with
/// `c` added at the end.
#[verifier::external_body]
fn string_push(s: &mut String, c: char)
    ensures
        final(s)@ == old(s)@.push(c),
{
    s.push(c);
}

/// The string of the characters `v`.
pub fn string_of(v: &Vec<char>) -> (r: String)
    ensures
        r@ == v@,
{
    let mut s = String::new();
    let mut i: usize = 0;
    while i < v.len()
        invariant
            i <= v@.len(),
            s@ == v@.take(i as int),
        decreases v@.len() - i,
    {
        string_push(&mut s, v[i]);
        proof {
            assert(v@.take(i as int + 1) =~= v@.take(i as int).push(v@[i as int]));
        }
        i = i + 1;
    }
    assert(v@.take(v@.len() as int) =~= v@);
    s
}

/// Appends the characters of `src` to `dst`.
pub fn push_all(dst: &mut Vec<char>, src: &Vec<char>)
    ensures
        final(dst)@ == old(dst)@ + src@,
{
    let mut i: usize = 0;
    while i < src.len()
        invariant
            i <= src@.len(),
            dst@ == old(dst)@ + src@.take(i as int),
        decreases src@.len() - i,
    {
        dst.push(src[i]);
        proof {
            assert(src@.take(i as int + 1) =~= src@.take(i as int).push(src@[i as int]));
        }
        i = i + 1;
    }
    assert(src@.take(src@.len() as int) =~= src@);
}

/// Appends the characters of `s` to `dst`.
pub fn push_str(dst: &mut Vec<char>, s: &str)
    ensures
        final(dst)@ == old(dst)@ + s@,
{
    let v = chars_of(s);
    push_all(dst, &v);
}

/// The characters `s[from..to]`.
pub fn slice_of(s: &Vec<char>, from: usize, to: usize) -> (r: Vec<char>)
    requires
        from <= to <= s@.len(),
    ensures
        r@ == s@.subrange(from as int, to as int),
{
    let mut v: Vec<char> = Vec::new();
    let mut i = from;
    while i < to
        invariant
            from <= i <= to,
            to <= s@.len(),
            v@ == s@.subrange(from as int, i as int),
        decreases to - i,
    {
        v.push(s[i]);
        proof {
            assert(s@.subrange(from as int, i as int + 1) =~= s@.subrange(from as int, i as int).push(
                s@[i as int],
            ));
        }
        i = i + 1;
    }
    v
}

/// Whether `c` has the Unicode `White_Space` property.
pub open spec fn is_white_space(c: char) -> bool {
    ||| '\u{9}' <= c <= '\u{d}'
    ||| c == ' '
    ||| c == '\u{85}'
    ||| c == '\u{a0}'
    ||| c == '\u{1680}'
    ||| '\u{2000}' <= c <= '\u{200a}'
    ||| c == '\u{2028}'
    ||| c == '\u{2029}'
    ||| c == '\u{202f}'
    ||| c == '\u{205f}'
    ||| c == '\u{3000}'
}

/// Whether `c` has the Unicode `White_Space` property (`char::is_whitespace`).
pub fn is_space(c: char) -> (r: bool)
    ensures
        r == is_white_space(c),
{
    ('\u{9}' <= c && c <= '\u{d}') || c == ' ' || c == '\u{85}' || c == '\u{a0}' || c == '\u{1680}'
        || ('\u{2000}' <= c && c <= '\u{200a}') || c == '\u{2028}' || c == '\u{2029}' || c
        == '\u{202f}' || c == '\u{205f}' || c == '\u{3000}'
}

/// Whether `c` is an ASCII letter, an ASCII digit or `_`.
pub open spec fn is_ident_char(c: char) -> bool {
    ||| 'a' <= c <= 'z'
    ||| 'A' <= c <= 'Z'
    ||| '0' <= c <= '9'
    ||| c == '_'
}

/// Whether `c` is an ASCII letter, an ASCII digit or `_`.
pub fn is_ident(c: char) -> (r: bool)
    ensures
        r == is_ident_char(c),
{
    ('a' <= c && c <= 'z') || ('A' <= c && c <= 'Z') || ('0' <= c && c <= '9') || c == '_'
}

/// Whether `pat` occurs in `s` at `i`.
pub open spec fn occurs_at(s: Seq<char>, pat: Seq<char>, i: int) -> bool {
    0 <= i && i + pat.len() <= s.len() && s.subrange(i, i + pat.len()) == pat
}

/// The first position at or after `from` at which `pat` occurs in `s` and
/// ends no later than `end`.
pub open spec fn find_in(s: Seq<char>, pat: Seq<char>, from: int, end: int) -> Option<int>
    decreases end - from + 1,
{
    if from < 0 || from + pat.len() > end || end > s.len() {
        None
    } else if occurs_at(s, pat, from) {
        Some(from)
    } else {
        find_in(s, pat, from + 1, end)
    }
}

/// What `find_in` finds is an occurrence within the range, and no earlier
/// position of the range holds one.
pub proof fn lemma_find_in(s: Seq<char>, pat: Seq<char>, from: int, end: int)
    ensures
        find_in(s, pat, from, end) matches Some(i) ==> from <= i && i + pat.len() <= end
            && occurs_at(s, pat, i),
        find_in(s, pat, from, end) matches Some(i) ==> forall|j: int|
            from <= j < i ==> !occurs_at(s, pat, j),
        find_in(s, pat, from, end) is None ==> (0 <= from && end <= s.len() ==> forall|j: int|
            from <= j && j + pat.len() <= end ==> !occurs_at(s, pat, j)),
    decreases end - from + 1,
{
    if from < 0 || from + pat.len() > end || end > s.len() {
    } else if occurs_at(s, pat, from) {
    } else {
        lemma_find_in(s, pat, from + 1, end);
    }
}

/// Whether `pat` occurs in `s` at `i`, for `i + pat.len() <= s.len()`.
pub fn matches_at(s: &Vec<char>, pat: &Vec<char>, i: usize) -> (r: bool)
    requires
        i + pat@.len() <= s@.len(),
    ensures
        r == occurs_at(s@, pat@, i as int),
{
    let slen = s.len();
    let mut j: usize = 0;
    while j < pat.len()
        invariant
            j <= pat@.len(),
            i + pat@.len() <= s@.len(),
            slen == s@.len(),
            forall|k: int| 0 <= k < j ==> s@[i + k] == pat@[k],
        decreases pat@.len() - j,
    {
        if s[i + j] != pat[j] {
            proof {
                assert(s@.subrange(i as int, i + pat@.len())[j as int] != pat@[j as int]);
            }
            return false;
        }
        j = j + 1;
    }
    assert(s@.subrange(i as int, i + pat@.len()) =~= pat@);
    true
}

/// The first position at or after `from` at which `pat` occurs in `s` and
/// ends no later than `end`.
pub fn find_chars(s: &Vec<char>, pat: &Vec<char>, from: usize, end: usize) -> (r: Option<usize>)
    requires
        end <= s@.len(),
    ensures
        r matches Some(i) ==> find_in(s@, pat@, from as int, end as int) == Some(i as int),
        r is None ==> find_in(s@, pat@, from as int, end as int) is None,
{
    let plen = pat.len();
    if plen > end || from > end - plen {
        return None;
    }
    let last = end - plen;
    let mut i = from;
    while i < last
        invariant
            from <= i <= last,
            last + plen == end,
            end <= s@.len(),
            plen == pat@.len(),
            find_in(s@, pat@, from as int, end as int) == find_in(s@, pat@, i as int, end as int),
        decreases last - i,
    {
        if matches_at(s, pat, i) {
            return Some(i);
        }
        i = i + 1;
    }
    if matches_at(s, pat, last) {
        Some(last)
    } else {
        proof {
            assert(find_in(s@, pat@, last as int + 1, end as int) is None);
        }
        None
    }
}

/// The position of the first character at or after `i` that is not an
/// identifier character (or the end).
pub open spec fn ident_end(s: Seq<char>, i: int) -> int
    decreases s.len() - i,
{
    if i < 0 || i >= s.len() {
        i
    } else if is_ident_char(s[i]) {
        ident_end(s, i + 1)
    } else {
        i
    }
}

/// The identifier characters starting at `i` end before `ident_end`.
pub proof fn lemma_ident_end(s: Seq<char>, i: int)
    requires
        0 <= i <= s.len(),
    ensures
        i <= ident_end(s, i) <= s.len(),
        forall|k: int| i <= k < ident_end(s, i) ==> is_ident_char(#[trigger] s[k]),
        ident_end(s, i) < s.len() ==> !is_ident_char(s[ident_end(s, i)]),
    decreases s.len() - i,
{
    if i < s.len() && is_ident_char(s[i]) {
        lemma_ident_end(s, i + 1);
    }
}

/// The position of the first character at or after `i` that is not an
/// identifier character (or the end).
pub fn scan_ident(s: &Vec<char>, i: usize) -> (r: usize)
    requires
        i <= s@.len(),
    ensures
        r == ident_end(s@, i as int),
{
    let mut j = i;
    while j < s.len() && is_ident(s[j])
        invariant
            i <= j <= s@.len(),
            ident_end(s@, i as int) == ident_end(s@, j as int),
        decreases s@.len() - j,
    {
        j = j + 1;
    }
    j
}

/// The words of `s`: its maximal runs of characters without white space.
pub open spec fn words(s: Seq<char>) -> Seq<Seq<char>>
    decreases s.len(),
{
    if s.len() == 0 {
        Seq::empty()
    } else if is_white_space(s.last()) {
        words(s.drop_last())
    } else if s.len() == 1 || is_white_space(s[s.len() - 2]) {
        words(s.drop_last()).push(seq![s.last()])
    } else {
        let w = words(s.drop_last());
        w.update(w.len() - 1, w.last().push(s.last()))
    }
}

/// `parts` joined with `sep` between each two.
pub open spec fn join(parts: Seq<Seq<char>>, sep: Seq<char>) -> Seq<char>
    decreases parts.len(),
{
    if parts.len() == 0 {
        Seq::empty()
    } else if parts.len() == 1 {
        parts[0]
    } else {
        join(parts.drop_last(), sep) + sep + parts.last()
    }
}

/// The words of `s` joined by single spaces.
pub open spec fn normalize(s: Seq<char>) -> Seq<char> {
    join(words(s), seq![' '])
}

/// The words of a text that does not end in white space end in a non-empty
/// last word; a text with no words is empty when joined.
proof fn lemma_words_shape(s: Seq<char>)
    ensures
        s.len() > 0 && !is_white_space(s.last()) ==> words(s).len() > 0,
        forall|k: int| 0 <= k < words(s).len() ==> #[trigger] words(s)[k].len() > 0,
    decreases s.len(),
{
    if s.len() > 0 {
        lemma_words_shape(s.drop_last());
    }
}

/// The words of `s[from..to]` joined by single spaces.
pub fn normalize_range(s: &Vec<char>, from: usize, to: usize) -> (r: Vec<char>)
    requires
        from <= to <= s@.len(),
    ensures
        r@ == normalize(s@.subrange(from as int, to as int)),
{
    let mut out: Vec<char> = Vec::new();
    let mut i = from;
    let ghost sub = s@.subrange(from as int, to as int);
    while i < to
        invariant
            from <= i <= to,
            to <= s@.len(),
            sub == s@.subrange(from as int, to as int),
            out@ == join(words(sub.take(i - from)), seq![' ']),
        decreases to - i,
    {
        let c = s[i];
        let ghost p = sub.take(i - from);
        let ghost q = sub.take(i - from + 1);
        proof {
            assert(q.drop_last() =~= p);
            assert(q.last() == c);
            lemma_words_shape(p);
        }
        if is_space(c) {
        } else if i == from || is_space(s[i - 1]) {
            proof {
                if i > from {
                    assert(q[q.len() - 2] == s@[i - 1]);
                }
                let w = words(p);
                assert(words(q) == w.push(seq![c]));
                if w.len() == 0 {
                    assert(join(w.push(seq![c]), seq![' ']) == seq![c]);
                } else {
                    assert(w.push(seq![c]).drop_last() =~= w);
                }
            }
            if out.len() > 0 {
                out.push(' ');
            }
            proof {
                let w = words(p);
                if w.len() == 0 {
                    assert(out@.len() == 0);
                } else {
                    assert(join(w, seq![' ']).len() >= w.last().len()) by {
                        if w.len() > 1 {
                            assert(join(w, seq![' ']) == join(w.drop_last(), seq![' ']) + seq![' ']
                                + w.last());
                        }
                    }
                }
            }
            out.push(c);
            proof {
                let w = words(p);
                if w.len() == 0 {
                    assert(out@ =~= seq![c]);
                } else {
                    assert(out@ =~= join(w, seq![' ']) + seq![' '] + seq![c]);
                }
            }
        } else {
            proof {
                assert(q[q.len() - 2] == s@[i - 1]);
                let w = words(p);
                assert(p.len() > 0 && !is_white_space(p.last()));
                assert(w.len() > 0);
                let w2 = w.update(w.len() - 1, w.last().push(c));
                assert(words(q) == w2);
                if w.len() == 1 {
                    assert(join(w2, seq![' ']) == w2[0]);
                } else {
                    assert(w2.drop_last() =~= w.drop_last());
                    assert(join(w2, seq![' ']) =~= join(w, seq![' ']).push(c));
                }
            }
            out.push(c);
        }
        i = i + 1;
    }
    proof {
        assert(sub.take(to - from) =~= sub);
    }
    out
}

/// `parts` joined with `sep` between each two.
pub fn join_with(parts: &Vec<Vec<char>>, sep: &Vec<char>) -> (r: Vec<char>)
    ensures
        r@ == join(parts@.map_values(|p: Vec<char>| p@), sep@),
{
    let ghost views = parts@.map_values(|p: Vec<char>| p@);
    let mut out: Vec<char> = Vec::new();
    let mut i: usize = 0;
    while i < parts.len()
        invariant
            i <= parts@.len(),
            views == parts@.map_values(|p: Vec<char>| p@),
            out@ == join(views.take(i as int), sep@),
        decreases parts@.len() - i,
    {
        proof {
            assert(views.take(i as int + 1).drop_last() =~= views.take(i as int));
            assert(views.take(i as int + 1).last() == parts@[i as int]@);
        }
        if i > 0 {
            push_all(&mut out, sep);
        }
        push_all(&mut out, &parts[i]);
        proof {
            if i == 0 {
                assert(views.take(1) =~= seq![parts@[0]@]);
            }
        }
        i = i + 1;
    }
    assert(views.take(parts@.len() as int) =~= views);
    out
}

/// `s` without its leading white space.
pub open spec fn trim_start(s: Seq<char>) -> Seq<char>
    decreases s.len(),
{
    if s.len() > 0 && is_white_space(s[0]) {
        trim_start(s.drop_first())
    } else {
        s
    }
}

/// `s` without its trailing white space.
pub open spec fn trim_end(s: Seq<char>) -> Seq<char>
    decreases s.len(),
{
    if s.len() > 0 && is_white_space(s.last()) {
        trim_end(s.drop_last())
    } else {
        s
    }
}

/// `s` without its leading and trailing white space.
pub open spec fn trim(s: Seq<char>) -> Seq<char> {
    trim_end(trim_start(s))
}

/// `s[from..]` without its leading white space.
pub fn trim_start_from(s: &Vec<char>, from: usize) -> (r: Vec<char>)
    requires
        from <= s@.len(),
    ensures
        r@ == trim_start(s@.skip(from as int)),
{
    let mut i = from;
    while i < s.len() && is_space(s[i])
        invariant
            from <= i <= s@.len(),
            trim_start(s@.skip(from as int)) == trim_start(s@.skip(i as int)),
        decreases s@.len() - i,
    {
        proof {
            assert(s@.skip(i as int).drop_first() =~= s@.skip(i as int + 1));
        }
        i = i + 1;
    }
    proof {
        assert(s@.skip(i as int) =~= s@.subrange(i as int, s@.len() as int));
    }
    slice_of(s, i, s.len())
}

/// `s` without its trailing white space.
pub fn trim_end_of(s: &Vec<char>) -> (r: Vec<char>)
    ensures
        r@ == trim_end(s@),
{
    let mut j = s.len();
    assert(s@.take(j as int) =~= s@);
    while j > 0 && is_space(s[j - 1])
        invariant
            j <= s@.len(),
            trim_end(s@) == trim_end(s@.take(j as int)),
        decreases j,
    {
        proof {
            assert(s@.take(j as int).drop_last() =~= s@.take(j as int - 1));
        }
        j = j - 1;
    }
    proof {
        assert(s@.take(j as int) =~= s@.subrange(0, j as int));
    }
    slice_of(s, 0, j)
}

/// The maximal runs of characters other than `sep` in `s`, in order.
pub open spec fn runs(s: Seq<char>, sep: char) -> Seq<Seq<char>>
    decreases s.len(),
{
    if s.len() == 0 {
        Seq::empty()
    } else if s.last() == sep {
        runs(s.drop_last(), sep)
    } else if s.len() == 1 || s[s.len() - 2] == sep {
        runs(s.drop_last(), sep).push(seq![s.last()])
    } else {
        let w = runs(s.drop_last(), sep);
        w.update(w.len() - 1, w.last().push(s.last()))
    }
}

/// A text that does not end in `sep` ends in a run.
pub proof fn lemma_runs_shape(s: Seq<char>, sep: char)
    ensures
        s.len() > 0 && s.last() != sep ==> runs(s, sep).len() > 0,
    decreases s.len(),
{
    if s.len() > 0 {
        lemma_runs_shape(s.drop_last(), sep);
    }
}

/// The maximal runs of characters other than `sep` in `s` (see [`runs`]).
pub fn split_runs(s: &Vec<char>, sep: char) -> (r: Vec<Vec<char>>)
    ensures
        r@.map_values(|p: Vec<char>| p@) == runs(s@, sep),
{
    let mut out: Vec<Vec<char>> = Vec::new();
    let mut cur: Vec<char> = Vec::new();
    let mut i: usize = 0;
    assert(s@.take(0) =~= Seq::<char>::empty());
    while i < s.len()
        invariant
            i <= s@.len(),
            cur@.len() > 0 ==> i > 0 && s@[i - 1] != sep,
            cur@.len() == 0 ==> (i > 0 ==> s@[i - 1] == sep),
            cur@.len() == 0 ==> out@.map_values(|p: Vec<char>| p@) == runs(s@.take(i as int), sep),
            cur@.len() > 0 ==> out@.map_values(|p: Vec<char>| p@).push(cur@) == runs(
                s@.take(i as int),
                sep,
            ),
        decreases s@.len() - i,
    {
        let c = s[i];
        let ghost p = s@.take(i as int);
        let ghost q = s@.take(i as int + 1);
        let ghost done = out@.map_values(|p: Vec<char>| p@);
        proof {
            assert(q.drop_last() =~= p);
            assert(q.last() == c);
            if i > 0 {
                assert(q[q.len() - 2] == s@[i - 1]);
            }
        }
        if c == sep {
            if cur.len() > 0 {
                let mut part: Vec<char> = Vec::new();
                std::mem::swap(&mut part, &mut cur);
                out.push(part);
                proof {
                    assert(out@.map_values(|p: Vec<char>| p@) =~= done.push(part@));
                }
            }
        } else {
            let ghost old_cur = cur@;
            cur.push(c);
            proof {
                if old_cur.len() == 0 {
                    assert(runs(q, sep) == runs(p, sep).push(seq![c]));
                    assert(cur@ =~= seq![c]);
                } else {
                    lemma_runs_shape(p, sep);
                    assert(runs(p, sep) == done.push(old_cur));
                    assert(done.push(old_cur).update(done.len() as int, old_cur.push(c))
                        =~= done.push(cur@));
                }
            }
        }
        i = i + 1;
    }
    proof {
        assert(s@.take(s@.len() as int) =~= s@);
    }
    if cur.len() > 0 {
        let ghost done = out@.map_values(|p: Vec<char>| p@);
        out.push(cur);
        proof {
            assert(out@.map_values(|p: Vec<char>| p@) =~= done.push(cur@));
        }
    }
    out
}

} // verus!
