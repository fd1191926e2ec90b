//! Generation of the wasm-bindgen bindings of the Basis Universal C API from
//! the `extern "C"` blocks that bindgen writes: each block declares one
//! function, which becomes a binding method on the wasm instance and a
//! public wrapper that forwards to it.
use vstd::prelude::*;

use crate::text::{
    chars_of, find_chars, find_in, ident_end, is_space, is_white_space, join,
    join_with, lemma_find_in, normalize, normalize_range, push_all, push_str, scan_ident,
    slice_of, string_of, trim, trim_end_of, trim_start, trim_start_from,
};

verus! {

/// The ways in which the input of the generator can be malformed.
#[derive(Debug, Clone, Copy, PartialEq, Eq, Structural)]
pub enum BindgenError {
    /// An `extern "C" {` block has no matching `}`.
    UnterminatedBlock,
    /// An `extern "C"` block does not declare exactly one function.
    NotOneFnInBlock,
    /// A parameter list has no matching `)`.
    UnterminatedParams,
    /// A return type is not followed by `;`.
    MissingSemicolon,
}

/// A function declared in an `extern "C"` block, as text.
#[derive(Debug, Clone)]
pub struct FnDecl {
    /// The `#[...]` attributes before `fn`, joined by single spaces; empty if none.
    pub attrs: String,
    /// The function's name.
    pub name: String,
    /// The text between the parentheses, its words joined by single spaces.
    pub args: String,
    /// The text between `->` and `;`, its words joined by single spaces;
    /// `None` for a function without a return type.
    pub ret: Option<String>,
}

/// A function declaration as character sequences.
pub struct FnDeclView {
    /// See [`FnDecl::attrs`].
    pub attrs: Seq<char>,
    /// See [`FnDecl::name`].
    pub name: Seq<char>,
    /// See [`FnDecl::args`].
    pub args: Seq<char>,
    /// See [`FnDecl::ret`].
    pub ret: Option<Seq<char>>,
}

impl View for FnDecl {
    type V = FnDeclView;

    open spec fn view(&self) -> FnDeclView {
        FnDeclView {
            attrs: self.attrs@,
            name: self.name@,
            args: self.args@,
            ret: match self.ret {
                Some(r) => Some(r@),
                None => None,
            },
        }
    }
}

/// The `#[...]` groups that start at or after `i` in `b[..end]`, one after
/// the other, each from a `#` directly followed by `[` to the next `]`.
/// Scanning stops at a `#` without `[`, and the whole result is `None` when
/// a group has no `]`.
pub open spec fn attr_groups(b: Seq<char>, i: int, end: int) -> Option<Seq<Seq<char>>>
    decreases end - i + 1,
{
    match find_in(b, "#"@, i, end) {
        None => Some(Seq::empty()),
        Some(h) => if !(h + 1 < end && b[h + 1] == '[') {
            Some(Seq::empty())
        } else {
            match find_in(b, "]"@, h + 1, end) {
                None => None,
                Some(c) => {
                    proof {
                        lemma_find_in(b, "#"@, i, end);
                        lemma_find_in(b, "]"@, h + 1, end);
                    }
                    if c + 1 <= i {
                        None
                    } else {
                        match attr_groups(b, c + 1, end) {
                            None => None,
                            Some(g) => Some(seq![b.subrange(h, c + 1)] + g),
                        }
                    }
                },
            }
        },
    }
}

/// The position of the `close` character that brings the nesting depth,
/// `depth` at `i`, down to zero, counting each `open` at or after `i` as one
/// level more and each `close` as one level less.
pub open spec fn closing(b: Seq<char>, i: int, depth: int, open: char, close: char) -> Option<int>
    decreases b.len() - i,
{
    if i < 0 || i >= b.len() {
        None
    } else {
        let d = if b[i] == open {
            depth + 1
        } else if b[i] == close {
            depth - 1
        } else {
            depth
        };
        if b[i] == close && d == 0 {
            Some(i)
        } else {
            closing(b, i + 1, d, open, close)
        }
    }
}

/// The declaration of the one function in the body `b` of an
/// `extern "C"` block: the attributes before the first ` fn `, the name
/// after it, the parameters between the next `(` and its matching `)`, and
/// the return type between the first `->` after that and the next `;`.
/// `Ok(None)` when there is no ` fn `, an attribute has no `]`, the name is
/// empty or no `(` follows; an error for an unclosed parameter list or a
/// return type without `;`.
pub open spec fn block_fn_of(b: Seq<char>) -> Result<Option<FnDeclView>, BindgenError> {
    match find_in(b, " fn "@, 0, b.len() as int) {
        None => Ok(None),
        Some(f) => match attr_groups(b, 0, f) {
            None => Ok(None),
            Some(groups) => {
                let name_start = f + " fn "@.len();
                let name_end = ident_end(b, name_start);
                if name_end == name_start {
                    Ok(None)
                } else {
                    match find_in(b, "("@, name_end, b.len() as int) {
                        None => Ok(None),
                        Some(p) => match closing(b, p + 1, 1, '(', ')') {
                            None => Err(BindgenError::UnterminatedParams),
                            Some(c) => {
                                let attrs = join(groups, " "@);
                                let name = b.subrange(name_start, name_end);
                                let args = normalize(b.subrange(p + 1, c));
                                match find_in(b, "->"@, c + 1, b.len() as int) {
                                    None => Ok(
                                        Some(FnDeclView { attrs, name, args, ret: None }),
                                    ),
                                    Some(a) => match find_in(
                                        b,
                                        ";"@,
                                        a + "->"@.len(),
                                        b.len() as int,
                                    ) {
                                        None => Err(BindgenError::MissingSemicolon),
                                        Some(sc) => Ok(
                                            Some(
                                                FnDeclView {
                                                    attrs,
                                                    name,
                                                    args,
                                                    ret: Some(
                                                        normalize(
                                                            b.subrange(a + "->"@.len(), sc),
                                                        ),
                                                    ),
                                                },
                                            ),
                                        ),
                                    },
                                }
                            },
                        },
                    }
                }
            },
        },
    }
}

/// The `#[...]` groups at or after `i` in `b[..end]` (see [`attr_groups`]).
fn scan_attrs(b: &Vec<char>, i: usize, end: usize) -> (r: Option<Vec<Vec<char>>>)
    requires
        i <= end <= b@.len(),
    ensures
        r matches Some(v) ==> attr_groups(b@, i as int, end as int) == Some(
            v@.map_values(|g: Vec<char>| g@),
        ),
        r is None ==> attr_groups(b@, i as int, end as int) is None,
    decreases end - i,
{
    let hash = chars_of("#");
    let close = chars_of("]");
    proof {
        reveal_strlit("#");
        reveal_strlit("]");
    }
    match find_chars(b, &hash, i, end) {
        None => Some(Vec::new()),
        Some(h) => {
            proof {
                lemma_find_in(b@, "#"@, i as int, end as int);
            }
            if !(h + 1 < end && b[h + 1] == '[') {
                Some(Vec::new())
            } else {
                match find_chars(b, &close, h + 1, end) {
                    None => None,
                    Some(c) => {
                        proof {
                            lemma_find_in(b@, "]"@, h as int + 1, end as int);
                        }
                        match scan_attrs(b, c + 1, end) {
                            None => None,
                            Some(rest) => {
                                let group = slice_of(b, h, c + 1);
                                let mut v: Vec<Vec<char>> = Vec::new();
                                v.push(group);
                                let mut rest = rest;
                                let ghost rest_view = rest@.map_values(|g: Vec<char>| g@);
                                let ghost first = v@.map_values(|g: Vec<char>| g@);
                                v.append(&mut rest);
                                proof {
                                    assert(v@.map_values(|g: Vec<char>| g@) =~= first + rest_view);
                                    assert(first =~= seq![b@.subrange(h as int, c + 1)]);
                                }
                                Some(v)
                            },
                        }
                    },
                }
            }
        },
    }
}

/// The position of the `close` that matches the `open` at `p` (see
/// [`closing`]).
fn find_closing(b: &Vec<char>, p: usize, open: char, close: char) -> (r: Option<usize>)
    requires
        p < b@.len(),
    ensures
        r matches Some(c) ==> closing(b@, p + 1, 1, open, close) == Some(c as int),
        r is None ==> closing(b@, p + 1, 1, open, close) is None,
{
    let blen = b.len();
    let mut j = p + 1;
    let mut depth: usize = 1;
    while j < blen
        invariant
            p < j <= blen,
            blen == b@.len(),
            1 <= depth <= j - p,
            closing(b@, p + 1, 1, open, close) == closing(b@, j as int, depth as int, open, close),
        decreases blen - j,
    {
        let c = b[j];
        if c == open {
            depth = depth + 1;
        } else if c == close {
            depth = depth - 1;
            if depth == 0 {
                return Some(j);
            }
        }
        j = j + 1;
    }
    None
}

/// Parses the body of an `extern "C"` block (see [`block_fn_of`]),
/// reporting the malformed cases as errors.
pub fn try_parse_block_fn(body: &str) -> (r: Result<Option<FnDecl>, BindgenError>)
    ensures
        r matches Err(e) ==> block_fn_of(body@) == Err::<Option<FnDeclView>, BindgenError>(e),
        r matches Ok(None) ==> block_fn_of(body@) == Ok::<Option<FnDeclView>, BindgenError>(None),
        r matches Ok(Some(d)) ==> block_fn_of(body@) == Ok::<Option<FnDeclView>, BindgenError>(
            Some(d@),
        ),
{
    let b = chars_of(body);
    parse_block_chars(&b)
}

/// Parses `b` as the body of an `extern "C"` block (see [`block_fn_of`]).
fn parse_block_chars(b: &Vec<char>) -> (r: Result<Option<FnDecl>, BindgenError>)
    ensures
        r matches Err(e) ==> block_fn_of(b@) == Err::<Option<FnDeclView>, BindgenError>(e),
        r matches Ok(None) ==> block_fn_of(b@) == Ok::<Option<FnDeclView>, BindgenError>(None),
        r matches Ok(Some(d)) ==> block_fn_of(b@) == Ok::<Option<FnDeclView>, BindgenError>(
            Some(d@),
        ),
{
    let fn_pat = chars_of(" fn ");
    let f = match find_chars(b, &fn_pat, 0, b.len()) {
        None => return Ok(None),
        Some(f) => f,
    };
    proof {
        lemma_find_in(b@, " fn "@, 0, b@.len() as int);
    }
    let groups = match scan_attrs(b, 0, f) {
        None => return Ok(None),
        Some(g) => g,
    };
    let name_start = f + fn_pat.len();
    let name_end = scan_ident(b, name_start);
    if name_end == name_start {
        return Ok(None);
    }
    proof {
        crate::text::lemma_ident_end(b@, name_start as int);
    }
    let lparen = chars_of("(");
    proof {
        reveal_strlit("(");
    }
    let p = match find_chars(b, &lparen, name_end, b.len()) {
        None => return Ok(None),
        Some(p) => p,
    };
    proof {
        lemma_find_in(b@, "("@, name_end as int, b@.len() as int);
    }
    let c = match find_closing(b, p, '(', ')') {
        None => return Err(BindgenError::UnterminatedParams),
        Some(c) => c,
    };
    proof {
        lemma_closing_bounds(b@, p as int + 1, 1, '(', ')');
    }
    let space = chars_of(" ");
    let attrs = join_with(&groups, &space);
    let name = slice_of(b, name_start, name_end);
    let args = normalize_range(b, p + 1, c);
    let arrow = chars_of("->");
    match find_chars(b, &arrow, c + 1, b.len()) {
        None => Ok(
            Some(
                FnDecl {
                    attrs: string_of(&attrs),
                    name: string_of(&name),
                    args: string_of(&args),
                    ret: None,
                },
            ),
        ),
        Some(a) => {
            proof {
                lemma_find_in(b@, "->"@, c as int + 1, b@.len() as int);
            }
            let semi = chars_of(";");
            match find_chars(b, &semi, a + arrow.len(), b.len()) {
                None => Err(BindgenError::MissingSemicolon),
                Some(sc) => {
                    proof {
                        lemma_find_in(b@, ";"@, a + "->"@.len(), b@.len() as int);
                    }
                    let ret = normalize_range(b, a + arrow.len(), sc);
                    Ok(
                        Some(
                            FnDecl {
                                attrs: string_of(&attrs),
                                name: string_of(&name),
                                args: string_of(&args),
                                ret: Some(string_of(&ret)),
                            },
                        ),
                    )
                },
            }
        },
    }
}

/// A closing character lies within the text, at or after where the scan
/// starts.
pub proof fn lemma_closing_bounds(b: Seq<char>, i: int, depth: int, open: char, close: char)
    ensures
        closing(b, i, depth, open, close) matches Some(c) ==> 0 <= i <= c < b.len(),
    decreases b.len() - i,
{
    if 0 <= i < b.len() {
        let d = if b[i] == open {
            depth + 1
        } else if b[i] == close {
            depth - 1
        } else {
            depth
        };
        if !(b[i] == close && d == 0) {
            lemma_closing_bounds(b, i + 1, d, open, close);
        }
    }
}

/// The function declared in the body of an `extern "C"` block, if the
/// body declares one (see [`block_fn_of`]).
pub fn parse_block_fn(body: &str) -> (r: Option<FnDecl>)
    requires
        block_fn_of(body@) is Ok,
    ensures
        r matches Some(d) ==> block_fn_of(body@) == Ok::<Option<FnDeclView>, BindgenError>(
            Some(d@),
        ),
        r is None ==> block_fn_of(body@) == Ok::<Option<FnDeclView>, BindgenError>(None),
{
    match try_parse_block_fn(body) {
        Ok(d) => d,
        Err(_) => None,
    }
}

/// The text that opens a block of foreign declarations.
pub open spec fn block_open() -> Seq<char> {
    "extern \"C\" {"@
}

/// The functions declared by the `extern "C"` blocks of `s` at or after
/// `from`, in order: each block runs from its opening text to the `}` that
/// closes it and must declare exactly one function (see [`block_fn_of`]).
/// The first malformed block gives the error.
pub open spec fn extern_fns_from(s: Seq<char>, from: int) -> Result<Seq<FnDeclView>, BindgenError>
    decreases s.len() - from,
{
    match find_in(s, block_open(), from, s.len() as int) {
        None => Ok(Seq::empty()),
        Some(st) => {
            let body_start = st + block_open().len();
            match closing(s, body_start, 1, '{', '}') {
                None => Err(BindgenError::UnterminatedBlock),
                Some(k) => match block_fn_of(s.subrange(body_start, k)) {
                    Err(e) => Err(e),
                    Ok(None) => Err(BindgenError::NotOneFnInBlock),
                    Ok(Some(d)) => {
                        proof {
                            lemma_find_in(s, block_open(), from, s.len() as int);
                            lemma_closing_bounds(s, body_start, 1, '{', '}');
                        }
                        match extern_fns_from(s, k + 1) {
                            Err(e) => Err(e),
                            Ok(rest) => Ok(seq![d] + rest),
                        }
                    },
                },
            }
        },
    }
}

/// The functions declared by the `extern "C"` blocks of `content` (see
/// [`extern_fns_from`]), or the error of its first malformed block.
pub fn try_parse_extern_fns(content: &str) -> (r: Result<Vec<FnDecl>, BindgenError>)
    ensures
        r matches Ok(v) ==> extern_fns_from(content@, 0) == Ok::<Seq<FnDeclView>, BindgenError>(
            v@.map_values(|d: FnDecl| d@),
        ),
        r matches Err(e) ==> extern_fns_from(content@, 0) == Err::<Seq<FnDeclView>, BindgenError>(
            e,
        ),
{
    let s = chars_of(content);
    let pat = chars_of("extern \"C\" {");
    proof {
        reveal_strlit("extern \"C\" {");
    }
    let slen = s.len();
    let mut fns: Vec<FnDecl> = Vec::new();
    let mut from: usize = 0;
    loop
        invariant
            from <= slen,
            slen == s@.len(),
            s@ == content@,
            pat@ == block_open(),
            block_open().len() == 12,
            extern_fns_from(s@, 0) matches Ok(all) ==> extern_fns_from(s@, from as int) matches Ok(
                rest,
            ) && all == fns@.map_values(|d: FnDecl| d@) + rest,
            extern_fns_from(s@, 0) is Err ==> extern_fns_from(s@, from as int)
                == extern_fns_from(s@, 0),
            extern_fns_from(s@, 0) is Ok ==> extern_fns_from(s@, from as int) is Ok,
        decreases slen - from,
    {
        let st = match find_chars(&s, &pat, from, slen) {
            None => {
                proof {
                    assert(fns@.map_values(|d: FnDecl| d@) + Seq::<FnDeclView>::empty()
                        =~= fns@.map_values(|d: FnDecl| d@));
                }
                return Ok(fns);
            },
            Some(st) => st,
        };
        proof {
            lemma_find_in(s@, block_open(), from as int, slen as int);
        }
        let body_start = st + pat.len();
        if body_start >= slen {
            return Err(BindgenError::UnterminatedBlock);
        }
        let k = match find_closing(&s, body_start - 1, '{', '}') {
            None => return Err(BindgenError::UnterminatedBlock),
            Some(k) => k,
        };
        proof {
            lemma_closing_bounds(s@, body_start as int, 1, '{', '}');
        }
        let body = slice_of(&s, body_start, k);
        let d = match parse_block_chars(&body) {
            Err(e) => return Err(e),
            Ok(None) => return Err(BindgenError::NotOneFnInBlock),
            Ok(Some(d)) => d,
        };
        let ghost before = fns@.map_values(|d: FnDecl| d@);
        fns.push(d);
        proof {
            assert(fns@.map_values(|d: FnDecl| d@) =~= before.push(d@));
            if let Ok(all) = extern_fns_from(s@, 0) {
                let rest = extern_fns_from(s@, k + 1)->Ok_0;
                assert(before + (seq![d@] + rest) =~= before.push(d@) + rest);
            }
        }
        from = k + 1;
    }
}

/// The functions declared by the `extern "C"` blocks of `content`, each
/// block declaring exactly one (see [`extern_fns_from`]).
pub fn parse_extern_fns(content: &str) -> (r: Vec<FnDecl>)
    requires
        extern_fns_from(content@, 0) is Ok,
    ensures
        extern_fns_from(content@, 0) == Ok::<Seq<FnDeclView>, BindgenError>(
            r@.map_values(|d: FnDecl| d@),
        ),
{
    match try_parse_extern_fns(content) {
        Ok(v) => v,
        Err(_) => Vec::new(),
    }
}

/// How a character changes the nesting depth of a parameter list.
pub open spec fn nesting(c: char) -> int {
    if c == '(' || c == '[' || c == '{' {
        1
    } else if c == ')' || c == ']' || c == '}' {
        -1
    } else {
        0
    }
}

/// The nesting depth at the end of `s`.
pub open spec fn depth_of(s: Seq<char>) -> int
    decreases s.len(),
{
    if s.len() == 0 {
        0
    } else {
        depth_of(s.drop_last()) + nesting(s.last())
    }
}

/// The parts of a parameter list between its top-level commas, that is the
/// commas at nesting depth zero.
pub open spec fn segments(s: Seq<char>) -> Seq<Seq<char>>
    decreases s.len(),
{
    if s.len() == 0 {
        seq![Seq::empty()]
    } else {
        let w = segments(s.drop_last());
        if s.last() == ',' && depth_of(s.drop_last()) == 0 {
            w.push(Seq::empty())
        } else {
            w.update(w.len() - 1, w.last().push(s.last()))
        }
    }
}

/// `t` without a leading `mut` keyword, that is `mut` followed by white space.
pub open spec fn strip_mut(t: Seq<char>) -> Seq<char> {
    if t.len() > 3 && t.take(3) == "mut"@ && is_white_space(t[3]) {
        trim_start(t.skip(3))
    } else {
        t
    }
}

/// The name that a parameter declares: the identifier characters at the
/// start of the part, trimmed and without `mut`.
pub open spec fn arg_name(seg: Seq<char>) -> Seq<char> {
    let u = strip_mut(trim(seg));
    u.take(ident_end(u, 0))
}

/// The names of the parts, leaving out the empty ones.
pub open spec fn names_of(segs: Seq<Seq<char>>) -> Seq<Seq<char>>
    decreases segs.len(),
{
    if segs.len() == 0 {
        Seq::empty()
    } else {
        let r = names_of(segs.drop_last());
        let n = arg_name(segs.last());
        if n.len() > 0 {
            r.push(n)
        } else {
            r
        }
    }
}

/// The names that the parameter list `args` declares, in order.
pub open spec fn arg_names_of(args: Seq<char>) -> Seq<Seq<char>> {
    names_of(segments(args))
}

/// The name that the parameter `seg` declares (see [`arg_name`]).
fn arg_name_chars(seg: &Vec<char>) -> (r: Vec<char>)
    ensures
        r@ == arg_name(seg@),
{
    proof {
        assert(seg@.skip(0) =~= seg@);
        reveal_strlit("mut");
    }
    let t0 = trim_start_from(seg, 0);
    let t = trim_end_of(&t0);
    let u = if t.len() > 3 && t[0] == 'm' && t[1] == 'u' && t[2] == 't' && is_space(t[3]) {
        proof {
            assert(t@.take(3) =~= "mut"@);
        }
        trim_start_from(&t, 3)
    } else {
        proof {
            if t@.len() > 3 && t@.take(3) == "mut"@ {
                assert(t@.take(3)[0] == 'm' && t@.take(3)[1] == 'u' && t@.take(3)[2] == 't');
            }
        }
        t
    };
    let e = scan_ident(&u, 0);
    proof {
        crate::text::lemma_ident_end(u@, 0);
        assert(u@.take(e as int) =~= u@.subrange(0, e as int));
    }
    slice_of(&u, 0, e)
}

/// The names that the parameter list `args` declares, in order: for each
/// part between top-level commas, the identifier at its start after
/// trimming and removing `mut`, where there is one.
pub fn arg_names(args: &str) -> (r: Vec<String>)
    ensures
        r@.map_values(|n: String| n@) == arg_names_of(args@),
{
    let s = chars_of(args);
    let slen = s.len();
    let mut names: Vec<String> = Vec::new();
    let mut seg: Vec<char> = Vec::new();
    let ghost mut done: Seq<Seq<char>> = Seq::empty();
    let mut opens: usize = 0;
    let mut closes: usize = 0;
    let mut i: usize = 0;
    assert(s@.take(0) =~= Seq::<char>::empty());
    while i < slen
        invariant
            i <= slen,
            slen == s@.len(),
            opens <= i,
            closes <= i,
            opens - closes == depth_of(s@.take(i as int)),
            segments(s@.take(i as int)) == done.push(seg@),
            names@.map_values(|n: String| n@) == names_of(done),
        decreases slen - i,
    {
        let c = s[i];
        let ghost p = s@.take(i as int);
        let ghost q = s@.take(i as int + 1);
        proof {
            assert(q.drop_last() =~= p);
            assert(q.last() == c);
        }
        if c == ',' && opens == closes {
            let n = arg_name_chars(&seg);
            let ghost before = names@.map_values(|n: String| n@);
            if n.len() > 0 {
                names.push(string_of(&n));
                proof {
                    assert(names@.map_values(|n: String| n@) =~= before.push(n@));
                }
            }
            proof {
                assert(done.push(seg@).drop_last() =~= done);
                done = done.push(seg@);
            }
            seg = Vec::new();
            proof {
                assert(segments(q) =~= done.push(seg@));
            }
        } else {
            if c == '(' || c == '[' || c == '{' {
                opens = opens + 1;
            } else if c == ')' || c == ']' || c == '}' {
                closes = closes + 1;
            }
            let ghost old_seg = seg@;
            seg.push(c);
            proof {
                assert(segments(q) =~= done.push(old_seg).update(done.len() as int, old_seg.push(c)));
                assert(segments(q) =~= done.push(seg@));
            }
        }
        i = i + 1;
    }
    let n = arg_name_chars(&seg);
    let ghost before = names@.map_values(|n: String| n@);
    if n.len() > 0 {
        names.push(string_of(&n));
        proof {
            assert(names@.map_values(|n: String| n@) =~= before.push(n@));
        }
    }
    proof {
        assert(s@.take(slen as int) =~= s@);
        assert(done.push(seg@).drop_last() =~= done);
    }
    names
}

/// The binding of a declared function as a method of the wasm instance: the
/// instance comes first among the parameters, and a `Bool32` result is
/// received as a plain `u32`; the function's own attributes are dropped.
pub open spec fn binding_line(d: FnDeclView) -> Seq<char> {
    "#[wasm_bindgen(method, js_name = \"_"@ + d.name + "\")] pub fn "@ + d.name + "(this: &Basisu"@
        + (if d.args.len() > 0 {
        ", "@ + d.args
    } else {
        Seq::empty()
    }) + match d.ret {
        Some(r) => if r == "Bool32"@ {
            ") -> u32;"@
        } else {
            ") -> "@ + r + ";"@
        },
        None => ");"@,
    }
}

/// The binding line of one declaration (see [`binding_line`]).
fn binding_of(d: &FnDecl) -> (r: String)
    ensures
        r@ == binding_line(d@),
{
    let mut out: Vec<char> = Vec::new();
    push_str(&mut out, "#[wasm_bindgen(method, js_name = \"_");
    push_str(&mut out, d.name.as_str());
    push_str(&mut out, "\")] pub fn ");
    push_str(&mut out, d.name.as_str());
    push_str(&mut out, "(this: &Basisu");
    let ghost head = out@;
    if !d.args.as_str().is_empty() {
        push_str(&mut out, ", ");
        push_str(&mut out, d.args.as_str());
    }
    let ghost with_args = out@;
    let b32 = "Bool32".to_owned();
    match &d.ret {
        Some(r) => {
            if *r == b32 {
                push_str(&mut out, ") -> u32;");
            } else {
                push_str(&mut out, ") -> ");
                push_str(&mut out, r.as_str());
                push_str(&mut out, ";");
            }
        },
        None => {
            push_str(&mut out, ");");
        },
    }
    proof {
        assert(binding_line(d@) =~= out@);
    }
    string_of(&out)
}

/// The bindings of the functions declared in `file_content`, one line each,
/// in order (see [`binding_line`]).
pub fn gen_binding_funcs(file_content: &str) -> (r: Vec<String>)
    requires
        extern_fns_from(file_content@, 0) is Ok,
    ensures
        r@.map_values(|l: String| l@) == extern_fns_from(file_content@, 0)->Ok_0.map_values(
            |d: FnDeclView| binding_line(d),
        ),
{
    let decls = parse_extern_fns(file_content);
    let ghost views = decls@.map_values(|d: FnDecl| d@);
    let mut out: Vec<String> = Vec::new();
    let mut i: usize = 0;
    while i < decls.len()
        invariant
            i <= decls@.len(),
            views == decls@.map_values(|d: FnDecl| d@),
            out@.map_values(|l: String| l@) == views.take(i as int).map_values(
                |d: FnDeclView| binding_line(d),
            ),
        decreases decls@.len() - i,
    {
        let line = binding_of(&decls[i]);
        let ghost before = out@.map_values(|l: String| l@);
        out.push(line);
        proof {
            assert(out@.map_values(|l: String| l@) =~= before.push(line@));
            assert(views.take(i as int + 1) =~= views.take(i as int).push(views[i as int]));
            assert(views.take(i as int + 1).map_values(|d: FnDeclView| binding_line(d))
                =~= views.take(i as int).map_values(|d: FnDeclView| binding_line(d)).push(
                binding_line(views[i as int]),
            ));
        }
        i = i + 1;
    }
    proof {
        assert(views.take(decls@.len() as int) =~= views);
    }
    out
}

/// The public wrapper of a declared function: an unsafe function with the
/// declaration's attributes, parameters and return type that forwards the
/// call, with the parameter names in order, to the wasm instance, wrapping a
/// `Bool32` result back into `Bool32`.
pub open spec fn public_line(d: FnDeclView) -> Seq<char> {
    let arg_list = join(arg_names_of(d.args), ", "@);
    d.attrs + "pub unsafe fn "@ + d.name + "("@ + d.args + ")"@ + match d.ret {
        Some(r) => " -> "@ + r,
        None => Seq::empty(),
    } + " {\n"@ + "    BASISU_INSTANCE.with(|inst| {\n"@ + "        let inst = inst.get().unwrap();\n"@
        + (if d.ret == Some("Bool32"@) {
        "        Bool32(inst."@ + d.name + "("@ + arg_list + "))\n"@
    } else {
        "        inst."@ + d.name + "("@ + arg_list + ")\n"@
    }) + "    })\n"@ + "}"@
}

/// The parameter names of `args` joined by `, `.
fn arg_list_of(args: &str) -> (r: Vec<char>)
    ensures
        r@ == join(arg_names_of(args@), ", "@),
{
    let names = arg_names(args);
    let mut parts: Vec<Vec<char>> = Vec::new();
    let mut i: usize = 0;
    while i < names.len()
        invariant
            i <= names@.len(),
            parts@.map_values(|p: Vec<char>| p@) == names@.map_values(|n: String| n@).take(
                i as int,
            ),
        decreases names@.len() - i,
    {
        let ghost before = parts@.map_values(|p: Vec<char>| p@);
        let part = chars_of(names[i].as_str());
        parts.push(part);
        proof {
            assert(parts@.map_values(|p: Vec<char>| p@) =~= before.push(part@));
            assert(names@.map_values(|n: String| n@).take(i as int + 1) =~= names@.map_values(
                |n: String| n@,
            ).take(i as int).push(names@[i as int]@));
        }
        i = i + 1;
    }
    proof {
        assert(names@.map_values(|n: String| n@).take(names@.len() as int) =~= names@.map_values(
            |n: String| n@,
        ));
    }
    let sep = chars_of(", ");
    join_with(&parts, &sep)
}

/// The public wrapper of one declaration (see [`public_line`]).
fn public_of(d: &FnDecl) -> (r: String)
    ensures
        r@ == public_line(d@),
{
    let arg_list = arg_list_of(d.args.as_str());
    let b32 = "Bool32".to_owned();
    let is_bool32 = match &d.ret {
        Some(r) => *r == b32,
        None => false,
    };
    let mut out: Vec<char> = Vec::new();
    push_str(&mut out, d.attrs.as_str());
    push_str(&mut out, "pub unsafe fn ");
    push_str(&mut out, d.name.as_str());
    push_str(&mut out, "(");
    push_str(&mut out, d.args.as_str());
    push_str(&mut out, ")");
    match &d.ret {
        Some(r) => {
            push_str(&mut out, " -> ");
            push_str(&mut out, r.as_str());
        },
        None => {},
    }
    push_str(&mut out, " {\n");
    push_str(&mut out, "    BASISU_INSTANCE.with(|inst| {\n");
    push_str(&mut out, "        let inst = inst.get().unwrap();\n");
    if is_bool32 {
        push_str(&mut out, "        Bool32(inst.");
        push_str(&mut out, d.name.as_str());
        push_str(&mut out, "(");
        push_all(&mut out, &arg_list);
        push_str(&mut out, "))\n");
    } else {
        push_str(&mut out, "        inst.");
        push_str(&mut out, d.name.as_str());
        push_str(&mut out, "(");
        push_all(&mut out, &arg_list);
        push_str(&mut out, ")\n");
    }
    push_str(&mut out, "    })\n");
    push_str(&mut out, "}");
    proof {
        assert(public_line(d@) =~= out@);
    }
    string_of(&out)
}

/// The public wrappers of the functions declared in `file_content`, in
/// order (see [`public_line`]).
pub fn gen_public_funcs(file_content: &str) -> (r: Vec<String>)
    requires
        extern_fns_from(file_content@, 0) is Ok,
    ensures
        r@.map_values(|l: String| l@) == extern_fns_from(file_content@, 0)->Ok_0.map_values(
            |d: FnDeclView| public_line(d),
        ),
{
    let decls = parse_extern_fns(file_content);
    let ghost views = decls@.map_values(|d: FnDecl| d@);
    let mut out: Vec<String> = Vec::new();
    let mut i: usize = 0;
    while i < decls.len()
        invariant
            i <= decls@.len(),
            views == decls@.map_values(|d: FnDecl| d@),
            out@.map_values(|l: String| l@) == views.take(i as int).map_values(
                |d: FnDeclView| public_line(d),
            ),
        decreases decls@.len() - i,
    {
        let line = public_of(&decls[i]);
        let ghost before = out@.map_values(|l: String| l@);
        out.push(line);
        proof {
            assert(out@.map_values(|l: String| l@) =~= before.push(line@));
            assert(views.take(i as int + 1) =~= views.take(i as int).push(views[i as int]));
            assert(views.take(i as int + 1).map_values(|d: FnDeclView| public_line(d))
                =~= views.take(i as int).map_values(|d: FnDeclView| public_line(d)).push(
                public_line(views[i as int]),
            ));
        }
        i = i + 1;
    }
    proof {
        assert(views.take(decls@.len() as int) =~= views);
    }
    out
}

/// The text of a binding file: the declaration of the wasm instance type
/// and of its heap getter, then each line of `encoder_apis` and of
/// `transcoder_apis`, indented, inside one `extern "C"` block.
pub open spec fn binding_file(encoder_apis: Seq<Seq<char>>, transcoder_apis: Seq<Seq<char>>) -> Seq<char> {
    "#[wasm_bindgen]\n"@ + "extern \"C\" {\n"@ + "    #[derive(Debug)]\n"@ + "    pub type Basisu;\n"@ + "\n"@
        + "    #[wasm_bindgen(method, getter, js_name = HEAPU8)]\n"@
        + "    pub(crate) fn wasm_heap_memory(this: &Basisu) -> Uint8Array;\n"@ + "\n"@ + indented_lines(
        encoder_apis + transcoder_apis,
    ) + "}\n"@
}

/// Each line indented by four spaces and ended by a newline.
pub open spec fn indented_lines(lines: Seq<Seq<char>>) -> Seq<char>
    decreases lines.len(),
{
    if lines.len() == 0 {
        Seq::empty()
    } else {
        indented_lines(lines.drop_last()) + "    "@ + lines.last() + "\n"@
    }
}

/// The text of a binding file for the given binding lines (see
/// [`binding_file`]).
pub fn write_binding_file(encoder_apis: &[String], transcoder_apis: &[String]) -> (r: String)
    ensures
        r@ == binding_file(
            encoder_apis@.map_values(|l: String| l@),
            transcoder_apis@.map_values(|l: String| l@),
        ),
{
    let mut out: Vec<char> = Vec::new();
    push_str(&mut out, "#[wasm_bindgen]\n");
    push_str(&mut out, "extern \"C\" {\n");
    push_str(&mut out, "    #[derive(Debug)]\n");
    push_str(&mut out, "    pub type Basisu;\n");
    push_str(&mut out, "\n");
    push_str(&mut out, "    #[wasm_bindgen(method, getter, js_name = HEAPU8)]\n");
    push_str(&mut out, "    pub(crate) fn wasm_heap_memory(this: &Basisu) -> Uint8Array;\n");
    push_str(&mut out, "\n");
    let ghost head = out@;
    let ghost enc = encoder_apis@.map_values(|l: String| l@);
    let ghost trans = transcoder_apis@.map_values(|l: String| l@);
    let mut i: usize = 0;
    while i < encoder_apis.len()
        invariant
            i <= encoder_apis@.len(),
            enc == encoder_apis@.map_values(|l: String| l@),
            out@ == head + indented_lines(enc.take(i as int)),
        decreases encoder_apis@.len() - i,
    {
        push_str(&mut out, "    ");
        push_str(&mut out, encoder_apis[i].as_str());
        push_str(&mut out, "\n");
        proof {
            assert(enc.take(i as int + 1).drop_last() =~= enc.take(i as int));
        }
        i = i + 1;
    }
    proof {
        assert(enc.take(encoder_apis@.len() as int) =~= enc);
    }
    let mut j: usize = 0;
    while j < transcoder_apis.len()
        invariant
            j <= transcoder_apis@.len(),
            enc == encoder_apis@.map_values(|l: String| l@),
            trans == transcoder_apis@.map_values(|l: String| l@),
            out@ == head + indented_lines(enc + trans.take(j as int)),
        decreases transcoder_apis@.len() - j,
    {
        push_str(&mut out, "    ");
        push_str(&mut out, transcoder_apis[j].as_str());
        push_str(&mut out, "\n");
        proof {
            assert((enc + trans.take(j as int + 1)).drop_last() =~= enc + trans.take(j as int));
        }
        j = j + 1;
    }
    proof {
        assert(trans.take(transcoder_apis@.len() as int) =~= trans);
    }
    push_str(&mut out, "}\n");
    proof {
        assert(out@ =~= binding_file(enc, trans));
    }
    string_of(&out)
}

/// `mut` is stripped only where white space follows it: a parameter whose
/// trimmed text starts with an identifier that merely begins with `mut` is
/// named by that whole identifier.
pub proof fn lemma_mut_stripped_only_before_white_space(seg: Seq<char>)
    requires
        trim(seg).len() > 3,
        trim(seg).take(3) == "mut"@,
        !is_white_space(trim(seg)[3]),
    ensures
        arg_name(seg) == trim(seg).take(ident_end(trim(seg), 0)),
{
}

} // verus!
