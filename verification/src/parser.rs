//! The top-level dispatcher and the public entry points.
//!
//! The dispatcher repeatedly tries, in priority order, a blank line, a
//! comment line, and each known record header; the first hit wins.  A
//! failed alternative leaves the position unchanged for the next one.
//! The parse succeeds when the whole input is consumed; remaining
//! non-blank input that no alternative matches is an unrecognized
//! top-level construct.
//!
//! Two entry points expose the parse: [`validate`] is strict and returns
//! the full diagnostic for the first failure; [`parse`] is best-effort
//! and returns an empty sequence when the input is malformed.  A third,
//! [`validate_blocks`], validates a buffer of blank-line-delimited blocks
//! one by one.

use vstd::prelude::*;

use crate::chars::str_to_char_vec;
use crate::err::{err_ok, ErrV, ErrorKind, SpecStep, Step, StructuredError};
use crate::lex::{comment, line_end, spec_comment, spec_line_end};
use crate::records::effect::{parse_effect, spec_parse_effect};
use crate::records::galaxy::{parse_galaxy, spec_parse_galaxy};
use crate::records::outfit::{parse_outfit, spec_parse_outfit};
use crate::records::planet::{parse_planet, spec_parse_planet};
use crate::records::start::{parse_start, spec_parse_start};
use crate::records::system::{parse_system, spec_parse_system};
use crate::types::{Object, ObjectV};

verus! {

/// The view of a sequence of parsed objects.
pub open spec fn vobjs(objs: Seq<Object>) -> Seq<ObjectV> {
    objs.map_values(|o: Object| o@)
}

/// The fatal error for non-blank input that no top-level form matched.
pub open spec fn unrecognized(at: int) -> ErrV {
    ErrV {
        kind: ErrorKind::UnrecognizedTopLevelConstruct,
        context: Seq::empty(),
        field: Option::None,
        at: at,
    }
}

/// One step of the top-level dispatcher: the end of the input, a skipped
/// blank or comment line, one parsed object, or a fatal error.
pub enum TopStep {
    Fatal(ErrV),
    Obj(int, ObjectV),
    Skip(int),
    End,
}

/// One step of the top-level dispatcher on the suffix `s`: a blank line,
/// then a comment line, then each record header, tried in that order;
/// if nothing matches the remaining input is unrecognized.
pub open spec fn spec_top_step(s: Seq<char>) -> TopStep {
    if s.len() == 0 {
        TopStep::End
    } else {
        match spec_line_end(s) {
            Option::Some(e) => TopStep::Skip(e),
            Option::None => match spec_comment(s) {
                Option::Some(n) => TopStep::Skip(n),
                Option::None => match spec_parse_start(s) {
                    SpecStep::Fatal(f) => TopStep::Fatal(f),
                    SpecStep::Hit(n, o) => TopStep::Obj(n, ObjectV::Start(o)),
                    SpecStep::Miss => match spec_parse_planet(s) {
                        SpecStep::Fatal(f) => TopStep::Fatal(f),
                        SpecStep::Hit(n, o) => TopStep::Obj(n, ObjectV::Planet(o)),
                        SpecStep::Miss => match spec_parse_galaxy(s) {
                            SpecStep::Fatal(f) => TopStep::Fatal(f),
                            SpecStep::Hit(n, o) => TopStep::Obj(n, ObjectV::Galaxy(o)),
                            SpecStep::Miss => match spec_parse_system(s) {
                                SpecStep::Fatal(f) => TopStep::Fatal(f),
                                SpecStep::Hit(n, o) => TopStep::Obj(n, ObjectV::System(o)),
                                SpecStep::Miss => match spec_parse_outfit(s) {
                                    SpecStep::Fatal(f) => TopStep::Fatal(f),
                                    SpecStep::Hit(n, o) => TopStep::Obj(n, ObjectV::Outfit(o)),
                                    SpecStep::Miss => match spec_parse_effect(s) {
                                        SpecStep::Fatal(f) => TopStep::Fatal(f),
                                        SpecStep::Hit(n, o) => TopStep::Obj(
                                            n,
                                            ObjectV::Effect(o),
                                        ),
                                        SpecStep::Miss => TopStep::Fatal(unrecognized(0)),
                                    },
                                },
                            },
                        },
                    },
                },
            },
        }
    }
}

/// A dispatcher step that is not the end consumes at least one character
/// and at most the whole suffix.
pub proof fn lemma_spec_top_step_len(s: Seq<char>)
    ensures
        spec_top_step(s) matches TopStep::Obj(n, _) ==> 1 <= n <= s.len(),
        spec_top_step(s) matches TopStep::Skip(n) ==> 1 <= n <= s.len(),
{
    crate::records::start::lemma_spec_parse_start_len(s);
    crate::records::planet::lemma_spec_parse_planet_len(s);
    crate::records::galaxy::lemma_spec_parse_galaxy_len(s);
    crate::records::system::lemma_spec_parse_system_len(s);
    crate::records::outfit::lemma_spec_parse_outfit_len(s);
    crate::records::effect::lemma_spec_parse_effect_len(s);
    crate::lex::lemma_run_le_len(s);
    if s.len() >= 3 && s[0] == '/' && s[1] == '/' && s[2] == ' ' {
        crate::lex::lemma_run_le_len(s.skip(3));
    }
}

/// The outcome of a whole parse: the object views in source order, or
/// the first fatal error.
pub enum ParseOut {
    Fatal(ErrV),
    Objs(Seq<ObjectV>),
}

/// The whole input parsed: dispatcher steps until the end of the input,
/// collecting the objects in source order.
pub open spec fn spec_parse_all(s: Seq<char>) -> ParseOut
    decreases s.len(),
{
    match spec_top_step(s) {
        TopStep::End => ParseOut::Objs(Seq::empty()),
        TopStep::Fatal(f) => ParseOut::Fatal(f),
        TopStep::Skip(n) => if 1 <= n <= s.len() {
            match spec_parse_all(s.skip(n)) {
                ParseOut::Fatal(f) => ParseOut::Fatal(crate::err::shift_err(f, n)),
                ParseOut::Objs(objs) => ParseOut::Objs(objs),
            }
        } else {
            ParseOut::Objs(Seq::empty())
        },
        TopStep::Obj(n, o) => if 1 <= n <= s.len() {
            match spec_parse_all(s.skip(n)) {
                ParseOut::Fatal(f) => ParseOut::Fatal(crate::err::shift_err(f, n)),
                ParseOut::Objs(objs) => ParseOut::Objs(seq![o] + objs),
            }
        } else {
            ParseOut::Objs(Seq::empty())
        },
    }
}

/// The strict parse of a whole buffer.  The empty input is rejected, as
/// is any input the dispatcher cannot consume completely.
pub open spec fn spec_validate(s: Seq<char>) -> ParseOut {
    if s.len() == 0 {
        ParseOut::Fatal(unrecognized(0))
    } else {
        spec_parse_all(s)
    }
}

/// The record alternatives of the dispatcher, tried in priority order on
/// a suffix that is neither blank nor a comment: a hit or fatal error
/// realizes the record arms of [`spec_top_step`]; where every record
/// misses, the unrecognized-construct error is returned.
#[verifier::rlimit(100)]
#[verifier::spinoff_prover]
fn top_object(src: &str, v: &Vec<char>, pos: usize) -> (r: Step<Object>)
    requires
        v@ == src@,
        pos <= v@.len(),
    ensures
        !(r is Miss),
        ({
            let s = v@.skip(pos as int);
            match r {
                Step::Hit(n, o) => pos + n <= v@.len() && (match spec_parse_start(s) {
                    SpecStep::Hit(m, w) => n == m && o@ == ObjectV::Start(w),
                    SpecStep::Fatal(_) => false,
                    SpecStep::Miss => match spec_parse_planet(s) {
                        SpecStep::Hit(m, w) => n == m && o@ == ObjectV::Planet(w),
                        SpecStep::Fatal(_) => false,
                        SpecStep::Miss => match spec_parse_galaxy(s) {
                            SpecStep::Hit(m, w) => n == m && o@ == ObjectV::Galaxy(w),
                            SpecStep::Fatal(_) => false,
                            SpecStep::Miss => match spec_parse_system(s) {
                                SpecStep::Hit(m, w) => n == m && o@ == ObjectV::System(w),
                                SpecStep::Fatal(_) => false,
                                SpecStep::Miss => match spec_parse_outfit(s) {
                                    SpecStep::Hit(m, w) => n == m && o@ == ObjectV::Outfit(w),
                                    SpecStep::Fatal(_) => false,
                                    SpecStep::Miss => match spec_parse_effect(s) {
                                        SpecStep::Hit(m, w) => n == m && o@ == ObjectV::Effect(
                                            w,
                                        ),
                                        _ => false,
                                    },
                                },
                            },
                        },
                    },
                }),
                Step::Fatal(e) => (match spec_parse_start(s) {
                    SpecStep::Fatal(f) => err_ok(e, f, pos as int),
                    SpecStep::Miss => match spec_parse_planet(s) {
                        SpecStep::Fatal(f) => err_ok(e, f, pos as int),
                        SpecStep::Miss => match spec_parse_galaxy(s) {
                            SpecStep::Fatal(f) => err_ok(e, f, pos as int),
                            SpecStep::Miss => match spec_parse_system(s) {
                                SpecStep::Fatal(f) => err_ok(e, f, pos as int),
                                SpecStep::Miss => match spec_parse_outfit(s) {
                                    SpecStep::Fatal(f) => err_ok(e, f, pos as int),
                                    SpecStep::Miss => match spec_parse_effect(s) {
                                        SpecStep::Fatal(f) => err_ok(e, f, pos as int),
                                        SpecStep::Miss => err_ok(
                                            e,
                                            unrecognized(0),
                                            pos as int,
                                        ),
                                        _ => false,
                                    },
                                    _ => false,
                                },
                                _ => false,
                            },
                            _ => false,
                        },
                        _ => false,
                    },
                    _ => false,
                }),
                Step::Miss => false,
            }
        }),
{
    match parse_start(src, v, pos) {
        Step::Hit(n, o) => Step::Hit(n, Object::Start(o)),
        Step::Fatal(e) => Step::Fatal(e),
        Step::Miss => match parse_planet(src, v, pos) {
            Step::Hit(n, o) => Step::Hit(n, Object::Planet(o)),
            Step::Fatal(e) => Step::Fatal(e),
            Step::Miss => match parse_galaxy(src, v, pos) {
                Step::Hit(n, o) => Step::Hit(n, Object::Galaxy(o)),
                Step::Fatal(e) => Step::Fatal(e),
                Step::Miss => match parse_system(src, v, pos) {
                    Step::Hit(n, o) => Step::Hit(n, Object::System(o)),
                    Step::Fatal(e) => Step::Fatal(e),
                    Step::Miss => match parse_outfit(src, v, pos) {
                        Step::Hit(n, o) => Step::Hit(n, Object::Outfit(o)),
                        Step::Fatal(e) => Step::Fatal(e),
                        Step::Miss => match parse_effect(src, v, pos) {
                            Step::Hit(n, o) => Step::Hit(n, Object::Effect(o)),
                            Step::Fatal(e) => Step::Fatal(e),
                            Step::Miss => Step::Fatal(
                                StructuredError {
                                    kind: ErrorKind::UnrecognizedTopLevelConstruct,
                                    context: Vec::new(),
                                    field: Option::None,
                                    at: pos,
                                },
                            ),
                        },
                    },
                },
            },
        },
    }
}

/// Parses the characters of `src` held in `v` from `pos` to the end.
#[verifier::rlimit(100)]
#[verifier::spinoff_prover]
fn parse_all(src: &str, v: &Vec<char>, pos: usize) -> (r: Result<Vec<Object>, StructuredError>)
    requires
        v@ == src@,
        pos <= v@.len(),
    ensures
        match r {
            Result::Ok(objs) => spec_parse_all(v@.skip(pos as int)) == ParseOut::Objs(
                vobjs(objs@),
            ),
            Result::Err(e) => spec_parse_all(v@.skip(pos as int)) matches ParseOut::Fatal(f)
                && err_ok(e, f, pos as int),
        },
{
    let ghost s0 = v@.skip(pos as int);
    let vlen = v.len();
    let mut cur: usize = pos;
    let mut objs: Vec<Object> = Vec::new();
    loop
        invariant
            v@ == src@,
            vlen == v@.len(),
            pos <= cur <= v@.len(),
            s0 == v@.skip(pos as int),
            ({
                match spec_parse_all(v@.skip(cur as int)) {
                    ParseOut::Objs(rest) => spec_parse_all(s0) == ParseOut::Objs(
                        vobjs(objs@) + rest,
                    ),
                    ParseOut::Fatal(f) => spec_parse_all(s0) == ParseOut::Fatal(
                        crate::err::shift_err(f, cur - pos),
                    ),
                }
            }),
        decreases v@.len() - cur,
    {
        let ghost scur = v@.skip(cur as int);
        proof {
            lemma_spec_top_step_len(scur);
        }
        if cur >= v.len() {
            proof {
                assert(scur.len() == 0);
                assert(vobjs(objs@) + Seq::<ObjectV>::empty() =~= vobjs(objs@));
            }
            return Result::Ok(objs);
        }
        match line_end(v, cur) {
            Option::Some(e) => {
                proof {
                    assert(v@.skip((cur + e) as int) == scur.skip(e as int));
                }
                cur = cur + e;
                continue ;
            },
            Option::None => {},
        }
        match comment(v, cur) {
            Option::Some(n) => {
                proof {
                    assert(v@.skip((cur + n) as int) == scur.skip(n as int));
                }
                cur = cur + n;
                continue ;
            },
            Option::None => {},
        }
        let step: Step<Object> = top_object(src, v, cur);
        match step {
            Step::Miss => {
                proof {
                    assert(false);
                }
            },
            Step::Fatal(e) => {
                return Result::Err(e);
            },
            Step::Hit(n, o) => {
                let ghost ov = o@;
                let ghost prev = vobjs(objs@);
                proof {
                    assert(v@.skip((cur + n) as int) == scur.skip(n as int));
                }
                objs.push(o);
                proof {
                    assert(vobjs(objs@) =~= prev.push(ov));
                    match spec_parse_all(scur.skip(n as int)) {
                        ParseOut::Objs(rest2) => {
                            assert((prev + (seq![ov] + rest2)) =~= (vobjs(objs@) + rest2));
                        },
                        ParseOut::Fatal(_) => {},
                    }
                }
                cur = cur + n;
            },
        }
    }
}

/// The strict entry point: parses the whole buffer and returns the
/// objects in source order, or the structured diagnostic of the first
/// failure.  The empty input and any input with unconsumed non-blank
/// remainder are rejected.
#[verifier::rlimit(100)]
#[verifier::spinoff_prover]
pub fn validate(input: &str) -> (r: Result<Vec<Object>, StructuredError>)
    ensures
        match r {
            Result::Ok(objs) => spec_validate(input@) == ParseOut::Objs(vobjs(objs@)),
            Result::Err(e) => spec_validate(input@) matches ParseOut::Fatal(f) && err_ok(e, f, 0),
        },
{
    let v = str_to_char_vec(input);
    if v.len() == 0 {
        return Result::Err(
            StructuredError {
                kind: ErrorKind::UnrecognizedTopLevelConstruct,
                context: Vec::new(),
                field: Option::None,
                at: 0,
            },
        );
    }
    proof {
        assert(v@.skip(0) == input@);
    }
    parse_all(input, &v, 0)
}

/// The best-effort entry point: the objects of a well-formed buffer, or
/// an empty sequence when the input is malformed; all diagnostics are
/// discarded.
pub fn parse(input: &str) -> (r: Vec<Object>)
    ensures
        match spec_validate(input@) {
            ParseOut::Objs(objs) => vobjs(r@) == objs,
            ParseOut::Fatal(_) => r@.len() == 0,
        },
{
    match validate(input) {
        Result::Ok(objs) => objs,
        Result::Err(_) => Vec::new(),
    }
}

/// Index just past the first blank-line separator (a line terminator
/// directly followed by another) in `s`, or nothing.
pub open spec fn spec_sep_pos(s: Seq<char>) -> Option<int>
    decreases s.len(),
{
    if s.len() < 2 {
        Option::None
    } else if s[0] == '\n' && s[1] == '\n' {
        Option::Some(0int)
    } else {
        match spec_sep_pos(s.skip(1)) {
            Option::None => Option::None,
            Option::Some(k) => Option::Some(1 + k),
        }
    }
}

/// A separator position is in range.
pub proof fn lemma_spec_sep_pos(s: Seq<char>)
    ensures
        spec_sep_pos(s) matches Option::Some(k) ==> 0 <= k && k + 2 <= s.len(),
    decreases s.len(),
{
    if s.len() >= 2 && !(s[0] == '\n' && s[1] == '\n') {
        lemma_spec_sep_pos(s.skip(1));
    }
}

/// The blank-line-delimited blocks of `s`: each block keeps its final
/// line terminator; the blank separator line is consumed.
pub open spec fn spec_blocks(s: Seq<char>) -> Seq<Seq<char>>
    decreases s.len(),
{
    if s.len() == 0 {
        Seq::empty()
    } else {
        match spec_sep_pos(s) {
            Option::None => seq![s],
            Option::Some(k) => if 0 <= k && k + 2 <= s.len() {
                seq![s.subrange(0, k + 1)] + spec_blocks(s.skip(k + 2))
            } else {
                seq![s]
            },
        }
    }
}

/// What a batch run reports: how many blocks the buffer held, how many
/// validated, and the index and diagnostic of the first failing block.
#[derive(Debug)]
pub struct BatchReport {
    /// Number of blocks in the buffer.
    pub total: usize,
    /// Number of blocks that validated.
    pub ok: usize,
    /// The first failing block's index and diagnostic, if any failed.
    pub first_failure: Option<(usize, StructuredError)>,
}

/// The spec-level batch outcome over a sequence of blocks.
pub struct BatchV {
    pub total: int,
    pub ok: int,
    pub first_failure: Option<(int, ErrV)>,
}

/// The batch outcome: each block is validated on its own; failures do
/// not stop the count, and the first failure's diagnostic is kept.
pub open spec fn spec_batch(bs: Seq<Seq<char>>) -> BatchV
    decreases bs.len(),
{
    if bs.len() == 0 {
        BatchV { total: 0, ok: 0, first_failure: Option::None }
    } else {
        let rest = spec_batch(bs.drop_last());
        match spec_validate(bs.last()) {
            ParseOut::Objs(_) => BatchV {
                total: rest.total + 1,
                ok: rest.ok + 1,
                first_failure: rest.first_failure,
            },
            ParseOut::Fatal(f) => BatchV {
                total: rest.total + 1,
                ok: rest.ok,
                first_failure: if rest.first_failure is Some {
                    rest.first_failure
                } else {
                    Option::Some((bs.len() - 1, f))
                },
            },
        }
    }
}

/// The views of a sequence of owned block strings.
pub open spec fn blocks_view(r: Seq<String>) -> Seq<Seq<char>> {
    r.map_values(|x: String| x@)
}

/// Splits `src` into its blank-line-delimited blocks.
#[verifier::rlimit(100)]
#[verifier::spinoff_prover]
fn split_blocks(src: &str, v: &Vec<char>) -> (r: Vec<String>)
    requires
        v@ == src@,
    ensures
        blocks_view(r@) == spec_blocks(v@),
{
    let vlen = v.len();
    let mut r: Vec<String> = Vec::new();
    let mut start: usize = 0;
    let ghost whole = v@;
    proof {
        assert(blocks_view(r@) + spec_blocks(whole) =~= spec_blocks(whole));
        assert(v@.skip(0) == whole);
    }
    loop
        invariant
            v@ == src@,
            vlen == v@.len(),
            0 <= start <= v@.len(),
            whole == v@,
            blocks_view(r@) + spec_blocks(v@.skip(start as int)) == spec_blocks(whole),
        decreases v@.len() - start,
    {
        let ghost scur = v@.skip(start as int);
        if start >= v.len() {
            proof {
                assert(scur.len() == 0);
                assert(blocks_view(r@) + spec_blocks(scur) =~= blocks_view(r@));
            }
            return r;
        }
        let mut i: usize = start;
        let mut found: bool = false;
        while i < vlen - 1 && !found
            invariant
                start <= i <= v@.len(),
                1 <= vlen == v@.len(),
                scur == v@.skip(start as int),
                !found ==> spec_sep_pos(scur) == (match spec_sep_pos(v@.skip(i as int)) {
                    Option::None => Option::<int>::None,
                    Option::Some(k) => Option::Some(i - start + k),
                }),
                found ==> i + 1 < v@.len() && v@[i as int] == '\n' && v@[i + 1] == '\n'
                    && spec_sep_pos(scur) == Option::Some(i - start),
            decreases v@.len() - i, (if found {
                0int
            } else {
                1int
            }),
        {
            proof {
                let si = v@.skip(i as int);
                assert(si[0] == v@[i as int]);
                assert(si[1] == v@[i + 1]);
                assert(si.skip(1) == v@.skip(i + 1));
            }
            if v[i] == '\n' && v[i + 1] == '\n' {
                found = true;
            } else {
                i = i + 1;
            }
        }
        proof {
            if !found {
                let si = v@.skip(i as int);
                assert(si.len() < 2);
            }
            lemma_spec_sep_pos(scur);
        }
        let ghost prev = blocks_view(r@);
        if found {
            let block = <String as vstd::string::StringExecFns>::from_str(
                vstd::string::StrSliceExecFns::substring_char(src, start, i + 1),
            );
            proof {
                assert(src@.subrange(start as int, i + 1) =~= scur.subrange(0, i - start + 1));
                assert(v@.skip((i + 2) as int) == scur.skip(i - start + 2));
            }
            r.push(block);
            proof {
                assert(spec_blocks(scur) == seq![scur.subrange(0, i - start + 1)] + spec_blocks(
                    scur.skip(i - start + 2),
                ));
                assert(blocks_view(r@) =~= prev.push(scur.subrange(0, i - start + 1)));
                assert((prev + (seq![scur.subrange(0, i - start + 1)] + spec_blocks(
                    scur.skip(i - start + 2),
                ))) =~= (blocks_view(r@) + spec_blocks(scur.skip(i - start + 2))));
            }
            start = i + 2;
        } else {
            let block = <String as vstd::string::StringExecFns>::from_str(
                vstd::string::StrSliceExecFns::substring_char(src, start, vlen),
            );
            proof {
                assert(src@.subrange(start as int, vlen as int) =~= scur);
                assert(spec_blocks(scur) == seq![scur]);
            }
            r.push(block);
            proof {
                assert(blocks_view(r@) =~= prev.push(scur));
                assert((prev + seq![scur]) =~= blocks_view(r@));
                assert(prev + spec_blocks(scur) =~= blocks_view(r@));
            }
            return r;
        }
    }
}

/// The batch entry point: splits the buffer into blank-line-delimited
/// blocks, validates each on its own, and reports the block count, the
/// count of blocks that validated, and the first failing block's index
/// and diagnostic (its offset is relative to that block).
#[verifier::rlimit(100)]
#[verifier::spinoff_prover]
pub fn validate_blocks(input: &str) -> (r: BatchReport)
    ensures
        ({
            let b = spec_batch(spec_blocks(input@));
            &&& r.total == b.total
            &&& r.ok == b.ok
            &&& match (r.first_failure, b.first_failure) {
                (Option::None, Option::None) => true,
                (Option::Some((i, e)), Option::Some((j, f))) => i == j && err_ok(e, f, 0),
                _ => false,
            }
        }),
{
    let v = str_to_char_vec(input);
    let blocks = split_blocks(input, &v);
    let ghost bs = spec_blocks(v@);
    proof {
        assert(forall|j: int|
            0 <= j < blocks@.len() ==> blocks@[j]@ == #[trigger] blocks_view(blocks@)[j]);
    }
    let mut total: usize = 0;
    let mut ok: usize = 0;
    let mut first_failure: Option<(usize, StructuredError)> = Option::None;
    let mut i: usize = 0;
    while i < blocks.len()
        invariant
            blocks@.len() == bs.len(),
            forall|j: int| 0 <= j < blocks@.len() ==> blocks@[j]@ == #[trigger] bs[j],
            0 <= i <= blocks@.len(),
            total <= i,
            ok <= total,
            ({
                let b = spec_batch(bs.subrange(0, i as int));
                &&& total == b.total
                &&& ok == b.ok
                &&& match (first_failure, b.first_failure) {
                    (Option::None, Option::None) => true,
                    (Option::Some((x, e)), Option::Some((y, f))) => x == y && err_ok(e, f, 0),
                    _ => false,
                }
            }),
        decreases blocks@.len() - i,
    {
        proof {
            assert(bs.subrange(0, i + 1).drop_last() =~= bs.subrange(0, i as int));
            assert(bs.subrange(0, i + 1).last() == bs[i as int]);
        }
        let block: &String = &blocks[i];
        match validate(block.as_str()) {
            Result::Ok(_) => {
                ok = ok + 1;
            },
            Result::Err(e) => {
                if first_failure.is_none() {
                    first_failure = Option::Some((i, e));
                }
            },
        }
        total = total + 1;
        i = i + 1;
    }
    proof {
        assert(bs.subrange(0, bs.len() as int) =~= bs);
    }
    BatchReport { total: total, ok: ok, first_failure: first_failure }
}

} // verus!
