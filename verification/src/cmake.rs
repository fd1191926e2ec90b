//! The argument files that the build hands to CMake when it compiles the
//! Basis Universal sources with emcc: the source lists, and the link and
//! compile flags of the encoder and of the transcoder, one entry per line.
use vstd::prelude::*;

use crate::text::{chars_of, join, join_with, runs, split_runs, string_of};

verus! {

/// The contents of the argument files.
pub struct CmakeArgFiles {
    /// `encoder_srcs.txt`.
    pub encoder_srcs: String,
    /// `transcoder_srcs.txt`.
    pub transcoder_srcs: String,
    /// `encoder_link_flags.txt`.
    pub encoder_link_flags: String,
    /// `transcoder_link_flags.txt`.
    pub transcoder_link_flags: String,
    /// `encoder_compile_flags.txt`.
    pub encoder_compile_flags: String,
    /// `transcoder_compile_flags.txt`.
    pub transcoder_compile_flags: String,
}

/// The character sequences of some strings.
pub open spec fn texts(v: Seq<String>) -> Seq<Seq<char>> {
    v.map_values(|s: String| s@)
}

/// Whether a default emcc argument is kept: all are but the warning switch
/// that emcc does not know.
pub open spec fn kept_default(a: Seq<char>) -> bool {
    a != "-Wno-stringop-overflow"@
}

/// The default emcc arguments that are kept.
pub open spec fn kept_defaults(defaults: Seq<Seq<char>>) -> Seq<Seq<char>> {
    defaults.filter(|a: Seq<char>| kept_default(a))
}

/// The emcc arguments: the kept defaults, then the space-separated words of
/// the extra flags, if any.
pub open spec fn emcc_args(defaults: Seq<Seq<char>>, flags: Option<Seq<char>>) -> Seq<Seq<char>> {
    kept_defaults(defaults) + match flags {
        Some(f) => runs(f, ' '),
        None => Seq::empty(),
    }
}

/// Whether an emcc argument is also a compile flag: all are but the `-s`
/// settings, of which only `-sSTRICT` is.
pub open spec fn compile_kept(f: Seq<char>) -> bool {
    !(f.len() >= 2 && f.take(2) == "-s"@) || f == "-sSTRICT"@
}

/// The emcc arguments that are also compile flags.
pub open spec fn compile_flags(args: Seq<Seq<char>>) -> Seq<Seq<char>> {
    args.filter(|f: Seq<char>| compile_kept(f))
}

/// The lines of a file that lists `parts`.
pub open spec fn lines(parts: Seq<Seq<char>>) -> Seq<char> {
    join(parts, "\n"@)
}

/// The character vectors of some strings.
fn char_vecs(v: &[String]) -> (r: Vec<Vec<char>>)
    ensures
        r@.map_values(|p: Vec<char>| p@) == texts(v@),
{
    let mut out: Vec<Vec<char>> = Vec::new();
    let mut i: usize = 0;
    while i < v.len()
        invariant
            i <= v@.len(),
            out@.map_values(|p: Vec<char>| p@) == texts(v@).take(i as int),
        decreases v@.len() - i,
    {
        let ghost before = out@.map_values(|p: Vec<char>| p@);
        let c = chars_of(v[i].as_str());
        out.push(c);
        proof {
            assert(out@.map_values(|p: Vec<char>| p@) =~= before.push(c@));
            assert(texts(v@).take(i as int + 1) =~= texts(v@).take(i as int).push(v@[i as int]@));
        }
        i = i + 1;
    }
    assert(texts(v@).take(v@.len() as int) =~= texts(v@));
    out
}

/// Whether `a` is the argument that the defaults lose.
fn is_dropped_default(a: &Vec<char>) -> (r: bool)
    ensures
        r == !kept_default(a@),
{
    let w = chars_of("-Wno-stringop-overflow");
    if a.len() != w.len() {
        return false;
    }
    let mut i: usize = 0;
    while i < a.len()
        invariant
            i <= a@.len(),
            a@.len() == w@.len(),
            w@ == "-Wno-stringop-overflow"@,
            forall|k: int| 0 <= k < i ==> a@[k] == w@[k],
        decreases a@.len() - i,
    {
        if a[i] != w[i] {
            return false;
        }
        i = i + 1;
    }
    assert(a@ =~= w@);
    true
}

/// Whether `f` is kept among the compile flags (see [`compile_kept`]).
fn is_compile_flag(f: &Vec<char>) -> (r: bool)
    ensures
        r == compile_kept(f@),
{
    proof {
        reveal_strlit("-s");
        reveal_strlit("-sSTRICT");
    }
    if f.len() >= 2 && f[0] == '-' && f[1] == 's' {
        assert(f@.take(2) =~= "-s"@);
        if f.len() == 8 && f[2] == 'S' && f[3] == 'T' && f[4] == 'R' && f[5] == 'I' && f[6] == 'C'
            && f[7] == 'T' {
            assert(f@ =~= "-sSTRICT"@);
            true
        } else {
            proof {
                if f@ == "-sSTRICT"@ {
                    assert(f@[7] == 'T');
                }
            }
            false
        }
    } else {
        proof {
            if f@.len() >= 2 && f@.take(2) == "-s"@ {
                assert(f@.take(2)[0] == '-' && f@.take(2)[1] == 's');
            }
        }
        true
    }
}

/// The emcc arguments (see [`emcc_args`]).
fn collect_emcc_args(defaults: &[String], flags: Option<&str>) -> (r: Vec<Vec<char>>)
    ensures
        r@.map_values(|p: Vec<char>| p@) == emcc_args(
            texts(defaults@),
            match flags {
                Some(f) => Some(f@),
                None => None,
            },
        ),
{
    let all = char_vecs(defaults);
    let ghost views = texts(defaults@);
    let mut out: Vec<Vec<char>> = Vec::new();
    let mut i: usize = 0;
    while i < all.len()
        invariant
            i <= all@.len(),
            all@.map_values(|p: Vec<char>| p@) == views,
            out@.map_values(|p: Vec<char>| p@) == kept_defaults(views.take(i as int)),
        decreases all@.len() - i,
    {
        let ghost before = out@.map_values(|p: Vec<char>| p@);
        proof {
            let t = views.take(i as int + 1);
            reveal(Seq::filter);
            assert(t.drop_last() =~= views.take(i as int));
            assert(t.last() == all@[i as int]@);
            assert(kept_defaults(t) == if kept_default(t.last()) {
                kept_defaults(t.drop_last()).push(t.last())
            } else {
                kept_defaults(t.drop_last())
            });
        }
        if !is_dropped_default(&all[i]) {
            let a = all[i].clone();
            proof {
                assert(a@ == all@[i as int]@);
            }
            out.push(a);
            proof {
                assert(out@.map_values(|p: Vec<char>| p@) =~= before.push(a@));
            }
        }
        i = i + 1;
    }
    proof {
        assert(views.take(all@.len() as int) =~= views);
    }
    let ghost kept = out@.map_values(|p: Vec<char>| p@);
    match flags {
        Some(f) => {
            let fc = chars_of(f);
            let mut words = split_runs(&fc, ' ');
            let ghost wv = words@.map_values(|p: Vec<char>| p@);
            out.append(&mut words);
            proof {
                assert(out@.map_values(|p: Vec<char>| p@) =~= kept + wv);
            }
        },
        None => {
            proof {
                assert(kept + Seq::<Seq<char>>::empty() =~= kept);
            }
        },
    }
    out
}

/// The emcc arguments that are also compile flags.
fn compile_flags_of(args: &Vec<Vec<char>>) -> (r: Vec<Vec<char>>)
    ensures
        r@.map_values(|p: Vec<char>| p@) == compile_flags(args@.map_values(|p: Vec<char>| p@)),
{
    let ghost views = args@.map_values(|p: Vec<char>| p@);
    let mut out: Vec<Vec<char>> = Vec::new();
    let mut i: usize = 0;
    while i < args.len()
        invariant
            i <= args@.len(),
            views == args@.map_values(|p: Vec<char>| p@),
            out@.map_values(|p: Vec<char>| p@) == compile_flags(views.take(i as int)),
        decreases args@.len() - i,
    {
        let ghost before = out@.map_values(|p: Vec<char>| p@);
        proof {
            let t = views.take(i as int + 1);
            reveal(Seq::filter);
            assert(t.drop_last() =~= views.take(i as int));
            assert(t.last() == args@[i as int]@);
            assert(compile_flags(t) == if compile_kept(t.last()) {
                compile_flags(t.drop_last()).push(t.last())
            } else {
                compile_flags(t.drop_last())
            });
        }
        if is_compile_flag(&args[i]) {
            let a = args[i].clone();
            proof {
                assert(a@ == args@[i as int]@);
            }
            out.push(a);
            proof {
                assert(out@.map_values(|p: Vec<char>| p@) =~= before.push(a@));
            }
        }
        i = i + 1;
    }
    proof {
        assert(views.take(args@.len() as int) =~= views);
    }
    out
}

/// `parts`, one per line.
fn lines_of(parts: &Vec<Vec<char>>) -> (r: String)
    ensures
        r@ == lines(parts@.map_values(|p: Vec<char>| p@)),
{
    let nl = chars_of("\n");
    let joined = join_with(parts, &nl);
    string_of(&joined)
}

/// The contents of the argument files: the encoder and the transcoder
/// sources, one per line; as link flags, their emcc arguments (see
/// [`emcc_args`]), one per line; as compile flags, those of the arguments
/// that [`compile_kept`] keeps, one per line.
pub fn cmake_arg_files(
    default_encoder_emcc_args: &[String],
    default_transcoder_emcc_args: &[String],
    encoder_sources: &[String],
    transcoder_sources: &[String],
    emcc_flags: Option<&str>,
) -> (r: CmakeArgFiles)
    ensures
        r.encoder_srcs@ == lines(texts(encoder_sources@)),
        r.transcoder_srcs@ == lines(texts(transcoder_sources@)),
        r.encoder_link_flags@ == lines(
            emcc_args(
                texts(default_encoder_emcc_args@),
                match emcc_flags {
                    Some(f) => Some(f@),
                    None => None,
                },
            ),
        ),
        r.transcoder_link_flags@ == lines(
            emcc_args(
                texts(default_transcoder_emcc_args@),
                match emcc_flags {
                    Some(f) => Some(f@),
                    None => None,
                },
            ),
        ),
        r.encoder_compile_flags@ == lines(
            compile_flags(
                emcc_args(
                    texts(default_encoder_emcc_args@),
                    match emcc_flags {
                        Some(f) => Some(f@),
                        None => None,
                    },
                ),
            ),
        ),
        r.transcoder_compile_flags@ == lines(
            compile_flags(
                emcc_args(
                    texts(default_transcoder_emcc_args@),
                    match emcc_flags {
                        Some(f) => Some(f@),
                        None => None,
                    },
                ),
            ),
        ),
{
    let encoder_args = collect_emcc_args(default_encoder_emcc_args, emcc_flags);
    let transcoder_args = collect_emcc_args(default_transcoder_emcc_args, emcc_flags);
    let enc_srcs = char_vecs(encoder_sources);
    let trans_srcs = char_vecs(transcoder_sources);
    let enc_compile = compile_flags_of(&encoder_args);
    let trans_compile = compile_flags_of(&transcoder_args);
    CmakeArgFiles {
        encoder_srcs: lines_of(&enc_srcs),
        transcoder_srcs: lines_of(&trans_srcs),
        encoder_link_flags: lines_of(&encoder_args),
        transcoder_link_flags: lines_of(&transcoder_args),
        encoder_compile_flags: lines_of(&enc_compile),
        transcoder_compile_flags: lines_of(&trans_compile),
    }
}

} // verus!
