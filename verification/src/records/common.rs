//! Shared shapes of record header lines.
//!
//! A record or sub-block starts with a header line: indentation, the
//! record tag, and, depending on the record kind, nothing, a name, an
//! optional name, or an integer value, closed by a line terminator.  A
//! header that does not match completely is a recoverable mismatch; a
//! fatal error inside a committed string form propagates.

use vstd::prelude::*;

use crate::err::{shift_err, step_ok, ErrV, SpecStep, Step, StructuredError};
use crate::fields::{tag_match, tag_match_tok};
use crate::lex::{
    hspace1, indent, line_end, spec_hspace1, spec_indent, spec_line_end, spec_string, spec_u64,
    string_tok, u64_tok,
};

verus! {

/// A header of the shape: indentation, tag, space, string name, line
/// terminator.  The value is the name.
pub open spec fn spec_str_header(depth: nat, tag: Seq<char>, s: Seq<char>) -> SpecStep<Seq<char>> {
    match spec_indent(s, depth) {
        Option::None => SpecStep::Miss,
        Option::Some(k) => {
            if !tag_match(s.skip(k), tag) {
                SpecStep::Miss
            } else {
                let p = k + tag.len();
                match spec_hspace1(s.skip(p)) {
                    Option::None => SpecStep::Miss,
                    Option::Some(h) => match spec_string(s.skip(p + h)) {
                        SpecStep::Miss => SpecStep::Miss,
                        SpecStep::Fatal(f) => SpecStep::Fatal(shift_err(f, p + h)),
                        SpecStep::Hit(n, c) => match spec_line_end(s.skip(p + h + n)) {
                            Option::None => SpecStep::Miss,
                            Option::Some(e) => SpecStep::Hit(p + h + n + e, c),
                        },
                    },
                }
            }
        },
    }
}

/// A named-header hit consumes at least one character and at most the
/// whole suffix.
pub proof fn lemma_spec_str_header_len(depth: nat, tag: Seq<char>, s: Seq<char>)
    ensures
        spec_str_header(depth, tag, s) matches SpecStep::Hit(n, _) ==> 1 <= n <= s.len(),
{
    crate::lex::lemma_spec_indent_bounds(s, depth);
    match spec_indent(s, depth) {
        Option::None => {},
        Option::Some(k) => {
            if tag_match(s.skip(k), tag) {
                let p = k + tag.len();
                crate::lex::lemma_run_le_len(s.skip(p));
                match spec_hspace1(s.skip(p)) {
                    Option::None => {},
                    Option::Some(h) => {
                        crate::lex::lemma_spec_string_len(s.skip(p + h));
                    },
                }
            }
        },
    }
}

/// Executable twin of [`spec_str_header`].
pub fn str_header_tok(src: &str, v: &Vec<char>, pos: usize, depth: usize, tag: &str) -> (r: Step<
    String,
>)
    requires
        v@ == src@,
        pos <= v@.len(),
    ensures
        step_ok(r, spec_str_header(depth as nat, tag@, v@.skip(pos as int)), pos as int),
        r matches Step::Hit(n, _) ==> pos + n <= v@.len(),
{
    let ghost s = v@.skip(pos as int);
    let vlen = v.len();
    let k = match indent(v, pos, depth) {
        Option::None => {
            return Step::Miss;
        },
        Option::Some(k) => k,
    };
    proof {
        assert(v@.skip((pos + k) as int) == s.skip(k as int));
    }
    let t = match tag_match_tok(v, pos + k, tag) {
        Option::None => {
            return Step::Miss;
        },
        Option::Some(t) => t,
    };
    let p = k + t;
    proof {
        assert(v@.skip((pos + p) as int) == s.skip(p as int));
    }
    let h = match hspace1(v, pos + p) {
        Option::None => {
            return Step::Miss;
        },
        Option::Some(h) => h,
    };
    proof {
        assert(v@.skip((pos + p + h) as int) == s.skip(p + h));
    }
    match string_tok(src, v, pos + p + h) {
        Step::Miss => Step::Miss,
        Step::Fatal(e) => Step::Fatal(e),
        Step::Hit(n, c) => {
            proof {
                assert(v@.skip((pos + p + h + n) as int) == s.skip(p + h + n));
            }
            match line_end(v, pos + p + h + n) {
                Option::None => Step::Miss,
                Option::Some(e) => Step::Hit(p + h + n + e, c),
            }
        },
    }
}

/// A header of the shape: indentation, tag, line terminator; it carries
/// no value.
pub open spec fn spec_bare_header(depth: nat, tag: Seq<char>, s: Seq<char>) -> SpecStep<bool> {
    match spec_indent(s, depth) {
        Option::None => SpecStep::Miss,
        Option::Some(k) => {
            if !tag_match(s.skip(k), tag) {
                SpecStep::Miss
            } else {
                let p = k + tag.len();
                match spec_line_end(s.skip(p)) {
                    Option::None => SpecStep::Miss,
                    Option::Some(e) => SpecStep::Hit(p + e, true),
                }
            }
        },
    }
}

/// A bare-header hit consumes at least one character and at most the
/// whole suffix.
pub proof fn lemma_spec_bare_header_len(depth: nat, tag: Seq<char>, s: Seq<char>)
    ensures
        spec_bare_header(depth, tag, s) matches SpecStep::Hit(n, _) ==> 1 <= n <= s.len(),
{
    crate::lex::lemma_spec_indent_bounds(s, depth);
}

/// Executable twin of [`spec_bare_header`].
pub fn bare_header_tok(v: &Vec<char>, pos: usize, depth: usize, tag: &str) -> (r: Step<bool>)
    requires
        pos <= v@.len(),
    ensures
        step_ok(r, spec_bare_header(depth as nat, tag@, v@.skip(pos as int)), pos as int),
        r matches Step::Hit(n, _) ==> pos + n <= v@.len(),
{
    let ghost s = v@.skip(pos as int);
    let vlen = v.len();
    let k = match indent(v, pos, depth) {
        Option::None => {
            return Step::Miss;
        },
        Option::Some(k) => k,
    };
    proof {
        assert(v@.skip((pos + k) as int) == s.skip(k as int));
    }
    let t = match tag_match_tok(v, pos + k, tag) {
        Option::None => {
            return Step::Miss;
        },
        Option::Some(t) => t,
    };
    let p = k + t;
    proof {
        assert(v@.skip((pos + p) as int) == s.skip(p as int));
    }
    match line_end(v, pos + p) {
        Option::None => Step::Miss,
        Option::Some(e) => Step::Hit(p + e, true),
    }
}

/// A header of the shape: indentation, tag, space, unsigned integer, line
/// terminator.  The value is the integer.
pub open spec fn spec_u64_header(depth: nat, tag: Seq<char>, s: Seq<char>) -> SpecStep<u64> {
    match spec_indent(s, depth) {
        Option::None => SpecStep::Miss,
        Option::Some(k) => {
            if !tag_match(s.skip(k), tag) {
                SpecStep::Miss
            } else {
                let p = k + tag.len();
                match spec_hspace1(s.skip(p)) {
                    Option::None => SpecStep::Miss,
                    Option::Some(h) => match spec_u64(s.skip(p + h)) {
                        SpecStep::Miss => SpecStep::Miss,
                        SpecStep::Fatal(f) => SpecStep::Fatal(shift_err(f, p + h)),
                        SpecStep::Hit(n, x) => match spec_line_end(s.skip(p + h + n)) {
                            Option::None => SpecStep::Miss,
                            Option::Some(e) => SpecStep::Hit(p + h + n + e, x),
                        },
                    },
                }
            }
        },
    }
}

/// An integer-header hit consumes at least one character and at most the
/// whole suffix.
pub proof fn lemma_spec_u64_header_len(depth: nat, tag: Seq<char>, s: Seq<char>)
    ensures
        spec_u64_header(depth, tag, s) matches SpecStep::Hit(n, _) ==> 1 <= n <= s.len(),
{
    crate::lex::lemma_spec_indent_bounds(s, depth);
    match spec_indent(s, depth) {
        Option::None => {},
        Option::Some(k) => {
            if tag_match(s.skip(k), tag) {
                let p = k + tag.len();
                crate::lex::lemma_run_le_len(s.skip(p));
                match spec_hspace1(s.skip(p)) {
                    Option::None => {},
                    Option::Some(h) => {
                        crate::lex::lemma_spec_u64_len(s.skip(p + h));
                    },
                }
            }
        },
    }
}

/// Executable twin of [`spec_u64_header`].
pub fn u64_header_tok(v: &Vec<char>, pos: usize, depth: usize, tag: &str) -> (r: Step<u64>)
    requires
        pos <= v@.len(),
    ensures
        step_ok(r, spec_u64_header(depth as nat, tag@, v@.skip(pos as int)), pos as int),
        r matches Step::Hit(n, _) ==> pos + n <= v@.len(),
{
    let ghost s = v@.skip(pos as int);
    let vlen = v.len();
    let k = match indent(v, pos, depth) {
        Option::None => {
            return Step::Miss;
        },
        Option::Some(k) => k,
    };
    proof {
        assert(v@.skip((pos + k) as int) == s.skip(k as int));
    }
    let t = match tag_match_tok(v, pos + k, tag) {
        Option::None => {
            return Step::Miss;
        },
        Option::Some(t) => t,
    };
    let p = k + t;
    proof {
        assert(v@.skip((pos + p) as int) == s.skip(p as int));
    }
    let h = match hspace1(v, pos + p) {
        Option::None => {
            return Step::Miss;
        },
        Option::Some(h) => h,
    };
    proof {
        assert(v@.skip((pos + p + h) as int) == s.skip(p + h));
    }
    match u64_tok(v, pos + p + h) {
        Step::Miss => Step::Miss,
        Step::Fatal(e) => Step::Fatal(e),
        Step::Hit(n, x) => {
            proof {
                assert(v@.skip((pos + p + h + n) as int) == s.skip(p + h + n));
            }
            match line_end(v, pos + p + h + n) {
                Option::None => Step::Miss,
                Option::Some(e) => Step::Hit(p + h + n + e, x),
            }
        },
    }
}

/// A header of the shape: indentation, tag, an optional space-separated
/// string name, line terminator.  The value is the optional name.
pub open spec fn spec_opt_str_header(depth: nat, tag: Seq<char>, s: Seq<char>) -> SpecStep<
    Option<Seq<char>>,
> {
    match spec_indent(s, depth) {
        Option::None => SpecStep::Miss,
        Option::Some(k) => {
            if !tag_match(s.skip(k), tag) {
                SpecStep::Miss
            } else {
                let p = k + tag.len();
                match spec_line_end(s.skip(p)) {
                    Option::Some(e) => SpecStep::Hit(p + e, Option::None),
                    Option::None => match spec_hspace1(s.skip(p)) {
                        Option::None => SpecStep::Miss,
                        Option::Some(h) => match spec_string(s.skip(p + h)) {
                            SpecStep::Miss => SpecStep::Miss,
                            SpecStep::Fatal(f) => SpecStep::Fatal(shift_err(f, p + h)),
                            SpecStep::Hit(n, c) => match spec_line_end(s.skip(p + h + n)) {
                                Option::None => SpecStep::Miss,
                                Option::Some(e) => SpecStep::Hit(p + h + n + e, Option::Some(c)),
                            },
                        },
                    },
                }
            }
        },
    }
}

/// An optional-name-header hit consumes at least one character and at
/// most the whole suffix.
pub proof fn lemma_spec_opt_str_header_len(depth: nat, tag: Seq<char>, s: Seq<char>)
    ensures
        spec_opt_str_header(depth, tag, s) matches SpecStep::Hit(n, _) ==> 1 <= n <= s.len(),
{
    crate::lex::lemma_spec_indent_bounds(s, depth);
    match spec_indent(s, depth) {
        Option::None => {},
        Option::Some(k) => {
            if tag_match(s.skip(k), tag) {
                let p = k + tag.len();
                crate::lex::lemma_run_le_len(s.skip(p));
                match spec_hspace1(s.skip(p)) {
                    Option::None => {},
                    Option::Some(h) => {
                        crate::lex::lemma_spec_string_len(s.skip(p + h));
                    },
                }
            }
        },
    }
}

/// Executable twin of [`spec_opt_str_header`].
pub fn opt_str_header_tok(src: &str, v: &Vec<char>, pos: usize, depth: usize, tag: &str) -> (r:
    Step<Option<String>>)
    requires
        v@ == src@,
        pos <= v@.len(),
    ensures
        match r {
            Step::Miss => spec_opt_str_header(depth as nat, tag@, v@.skip(pos as int)) is Miss,
            Step::Fatal(e) => spec_opt_str_header(depth as nat, tag@, v@.skip(pos as int)) matches
                SpecStep::Fatal(f) && crate::err::err_ok(e, f, pos as int),
            Step::Hit(n, c) => spec_opt_str_header(depth as nat, tag@, v@.skip(pos as int)) matches
                SpecStep::Hit(m, w) && n == m && crate::types::opt_str_view(c) == w && pos + n
                <= v@.len(),
        },
{
    let ghost s = v@.skip(pos as int);
    let vlen = v.len();
    let k = match indent(v, pos, depth) {
        Option::None => {
            return Step::Miss;
        },
        Option::Some(k) => k,
    };
    proof {
        assert(v@.skip((pos + k) as int) == s.skip(k as int));
    }
    let t = match tag_match_tok(v, pos + k, tag) {
        Option::None => {
            return Step::Miss;
        },
        Option::Some(t) => t,
    };
    let p = k + t;
    proof {
        assert(v@.skip((pos + p) as int) == s.skip(p as int));
    }
    match line_end(v, pos + p) {
        Option::Some(e) => {
            return Step::Hit(p + e, Option::None);
        },
        Option::None => {},
    }
    let h = match hspace1(v, pos + p) {
        Option::None => {
            return Step::Miss;
        },
        Option::Some(h) => h,
    };
    proof {
        assert(v@.skip((pos + p + h) as int) == s.skip(p + h));
    }
    match string_tok(src, v, pos + p + h) {
        Step::Miss => Step::Miss,
        Step::Fatal(e) => Step::Fatal(e),
        Step::Hit(n, c) => {
            proof {
                assert(v@.skip((pos + p + h + n) as int) == s.skip(p + h + n));
            }
            match line_end(v, pos + p + h + n) {
                Option::None => Step::Miss,
                Option::Some(e) => Step::Hit(p + h + n + e, Option::Some(c)),
            }
        },
    }
}

/// The fatal error for a record that finished its fields without the
/// mandatory field `tag` being set, raised `at` characters into the
/// record's suffix.
pub open spec fn missing_field(tag: Seq<char>, at: int) -> ErrV {
    ErrV {
        kind: crate::err::ErrorKind::MissingRequiredField,
        context: Seq::empty(),
        field: Option::Some(tag),
        at: at,
    }
}

/// Builds the executable [`missing_field`] error at absolute position
/// `at`.
pub fn missing_field_err(tag: &str, at: usize) -> (r: StructuredError)
    ensures
        r.kind == crate::err::ErrorKind::MissingRequiredField,
        r.context@ == Seq::<crate::err::RecordKind>::empty(),
        r.field matches Option::Some(t) && t@ == tag@,
        r.at == at,
{
    StructuredError {
        kind: crate::err::ErrorKind::MissingRequiredField,
        context: Vec::new(),
        field: Option::Some(<String as vstd::string::StringExecFns>::from_str(tag)),
        at: at,
    }
}

/// The fatal error for a parsed integer that does not fit the field it
/// lands in, raised `at` characters into the record's suffix.
pub open spec fn conv_fault(tag: Seq<char>, at: int) -> ErrV {
    ErrV {
        kind: crate::err::ErrorKind::NumericConversionFault,
        context: Seq::empty(),
        field: Option::Some(tag),
        at: at,
    }
}

/// Builds the executable [`conv_fault`] error at absolute position `at`.
pub fn conv_fault_err(tag: &str, at: usize) -> (r: StructuredError)
    ensures
        r.kind == crate::err::ErrorKind::NumericConversionFault,
        r.context@ == Seq::<crate::err::RecordKind>::empty(),
        r.field matches Option::Some(t) && t@ == tag@,
        r.at == at,
{
    StructuredError {
        kind: crate::err::ErrorKind::NumericConversionFault,
        context: Vec::new(),
        field: Option::Some(<String as vstd::string::StringExecFns>::from_str(tag)),
        at: at,
    }
}

} // verus!
