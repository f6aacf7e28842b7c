//! Lexical primitives of the format: indentation units, horizontal space,
//! line terminators, comments, the three string-literal forms, digit runs
//! and the numeric and date tokens built from them.
//!
//! Every primitive has a spec-level definition over the remaining input
//! (a suffix of the character sequence) and an executable twin that is
//! proved to realize it exactly.  A primitive either hits, consuming a
//! prefix, or misses without consuming anything; the committed forms can
//! also fail fatally (see [`crate::err`]).

use vstd::prelude::*;

use crate::chars::{bare, digit, digit_val, hspace, is_bare, is_digit, is_hspace};
use crate::err::{ErrV, ErrorKind, SpecStep, Step, StructuredError};
use crate::types::{Date, Decimal};
use vstd::string::{StrSliceExecFns, StringExecFns};

verus! {

/// Length of the longest all-horizontal-space prefix of `s`.
pub open spec fn hspace_run(s: Seq<char>) -> int
    decreases s.len(),
{
    if s.len() > 0 && is_hspace(s[0]) {
        1 + hspace_run(s.skip(1))
    } else {
        0
    }
}

/// Length of the longest all-bare-character prefix of `s`.
pub open spec fn bare_run(s: Seq<char>) -> int
    decreases s.len(),
{
    if s.len() > 0 && is_bare(s[0]) {
        1 + bare_run(s.skip(1))
    } else {
        0
    }
}

/// Length of the longest all-digit prefix of `s`.
pub open spec fn digit_run(s: Seq<char>) -> int
    decreases s.len(),
{
    if s.len() > 0 && is_digit(s[0]) {
        1 + digit_run(s.skip(1))
    } else {
        0
    }
}

/// Length of the longest prefix of `s` without a line terminator.
pub open spec fn text_run(s: Seq<char>) -> int
    decreases s.len(),
{
    if s.len() > 0 && s[0] != '\n' {
        1 + text_run(s.skip(1))
    } else {
        0
    }
}

/// `hspace_run` is the unique `i` such that the first `i` characters are
/// horizontal space and the one after them (if any) is not.
pub proof fn lemma_hspace_run(s: Seq<char>, i: int)
    requires
        0 <= i <= s.len(),
        forall|j: int| 0 <= j < i ==> is_hspace(s[j]),
        i < s.len() ==> !is_hspace(s[i]),
    ensures
        hspace_run(s) == i,
    decreases i,
{
    if i > 0 {
        lemma_hspace_run(s.skip(1), i - 1);
    }
}

/// `bare_run` characterized by its endpoint, as [`lemma_hspace_run`].
pub proof fn lemma_bare_run(s: Seq<char>, i: int)
    requires
        0 <= i <= s.len(),
        forall|j: int| 0 <= j < i ==> is_bare(s[j]),
        i < s.len() ==> !is_bare(s[i]),
    ensures
        bare_run(s) == i,
    decreases i,
{
    if i > 0 {
        lemma_bare_run(s.skip(1), i - 1);
    }
}

/// `digit_run` characterized by its endpoint, as [`lemma_hspace_run`].
pub proof fn lemma_digit_run(s: Seq<char>, i: int)
    requires
        0 <= i <= s.len(),
        forall|j: int| 0 <= j < i ==> is_digit(s[j]),
        i < s.len() ==> !is_digit(s[i]),
    ensures
        digit_run(s) == i,
    decreases i,
{
    if i > 0 {
        lemma_digit_run(s.skip(1), i - 1);
    }
}

/// `text_run` characterized by its endpoint, as [`lemma_hspace_run`].
pub proof fn lemma_text_run(s: Seq<char>, i: int)
    requires
        0 <= i <= s.len(),
        forall|j: int| 0 <= j < i ==> s[j] != '\n',
        i < s.len() ==> s[i] == '\n',
    ensures
        text_run(s) == i,
    decreases i,
{
    if i > 0 {
        lemma_text_run(s.skip(1), i - 1);
    }
}

/// `digit_run` lies between 0 and the suffix length, and the characters of
/// the run are digits.
pub proof fn lemma_digit_run_bounds(s: Seq<char>)
    ensures
        0 <= digit_run(s) <= s.len(),
        forall|j: int| 0 <= j < digit_run(s) ==> is_digit(s[j]),
    decreases s.len(),
{
    if s.len() > 0 && is_digit(s[0]) {
        lemma_digit_run_bounds(s.skip(1));
        assert forall|j: int| 0 <= j < digit_run(s) implies is_digit(s[j]) by {
            if j > 0 {
                assert(is_digit(s.skip(1)[j - 1]));
            }
        }
    }
}

/// Scans `v` from `pos` for the end of the run of characters of the class
/// picked by `which` (0: horizontal space, 1: bare characters, 2: digits).
fn scan_run(v: &Vec<char>, pos: usize, which: u8) -> (n: usize)
    requires
        pos <= v@.len(),
        which <= 2,
    ensures
        which == 0 ==> n == hspace_run(v@.skip(pos as int)),
        which == 1 ==> n == bare_run(v@.skip(pos as int)),
        which == 2 ==> n == digit_run(v@.skip(pos as int)),
        pos + n <= v@.len(),
{
    let ghost s = v@.skip(pos as int);
    let mut i: usize = pos;
    let mut more: bool = true;
    while i < v.len() && more
        invariant
            pos <= i <= v@.len(),
            s == v@.skip(pos as int),
            which == 0 ==> forall|j: int| 0 <= j < i - pos ==> is_hspace(s[j]),
            which == 1 ==> forall|j: int| 0 <= j < i - pos ==> is_bare(s[j]),
            which == 2 ==> forall|j: int| 0 <= j < i - pos ==> is_digit(s[j]),
            !more && which == 0 ==> i < v@.len() && !is_hspace(s[i - pos]),
            !more && which == 1 ==> i < v@.len() && !is_bare(s[i - pos]),
            !more && which == 2 ==> i < v@.len() && !is_digit(s[i - pos]),
        decreases v@.len() - i, (if more {
            1int
        } else {
            0int
        }),
    {
        let c = v[i];
        let ok = if which == 0 {
            hspace(c)
        } else if which == 1 {
            bare(c)
        } else {
            digit(c)
        };
        proof {
            assert(s[i - pos] == v@[i as int]);
        }
        if ok {
            i = i + 1;
        } else {
            more = false;
        }
    }
    proof {
        if which == 0 {
            lemma_hspace_run(s, i - pos);
        } else if which == 1 {
            lemma_bare_run(s, i - pos);
        } else {
            lemma_digit_run(s, i - pos);
        }
    }
    i - pos
}

/// One line terminator: a single `'\n'`.  The format assumes `'\n'` line
/// endings; a `'\r'` is not part of the grammar.
pub open spec fn spec_line_end(s: Seq<char>) -> Option<int> {
    if s.len() > 0 && s[0] == '\n' {
        Option::Some(1int)
    } else {
        Option::None
    }
}

/// Executable twin of [`spec_line_end`].
pub fn line_end(v: &Vec<char>, pos: usize) -> (r: Option<usize>)
    requires
        pos <= v@.len(),
    ensures
        match r {
            Option::Some(n) => spec_line_end(v@.skip(pos as int)) == Option::Some(n as int) && pos
                + n <= v@.len(),
            Option::None => spec_line_end(v@.skip(pos as int)) is None,
        },
{
    if pos < v.len() && v[pos] == '\n' {
        proof {
            assert(v@.skip(pos as int)[0] == v@[pos as int]);
        }
        Option::Some(1)
    } else {
        Option::None
    }
}

/// One indentation unit: a tab, or a run of exactly four spaces.
pub open spec fn spec_indent_one(s: Seq<char>) -> Option<int> {
    if s.len() > 0 && s[0] == '\t' {
        Option::Some(1int)
    } else if s.len() >= 4 && s[0] == ' ' && s[1] == ' ' && s[2] == ' ' && s[3] == ' ' {
        Option::Some(4int)
    } else {
        Option::None
    }
}

/// Exactly `n` indentation units, each independently a tab or four spaces.
pub open spec fn spec_indent(s: Seq<char>, n: nat) -> Option<int>
    decreases n,
{
    if n == 0 {
        Option::Some(0int)
    } else {
        match spec_indent_one(s) {
            Option::None => Option::None,
            Option::Some(k) => match spec_indent(s.skip(k), (n - 1) as nat) {
                Option::None => Option::None,
                Option::Some(m) => Option::Some(k + m),
            },
        }
    }
}

/// Consuming `n` indentation units consumes between `n` and `4 n`
/// characters, and never more than the suffix holds.
pub proof fn lemma_spec_indent_bounds(s: Seq<char>, n: nat)
    ensures
        match spec_indent(s, n) {
            Option::Some(k) => n <= k <= 4 * n && k <= s.len(),
            Option::None => true,
        },
    decreases n,
{
    if n > 0 {
        match spec_indent_one(s) {
            Option::None => {},
            Option::Some(k) => {
                lemma_spec_indent_bounds(s.skip(k), (n - 1) as nat);
            },
        }
    }
}

/// Executable twin of [`spec_indent`].
pub fn indent(v: &Vec<char>, pos: usize, n: usize) -> (r: Option<usize>)
    requires
        pos <= v@.len(),
    ensures
        match r {
            Option::Some(k) => spec_indent(v@.skip(pos as int), n as nat) == Option::Some(k as int)
                && pos + k <= v@.len(),
            Option::None => spec_indent(v@.skip(pos as int), n as nat) is None,
        },
    decreases n,
{
    if n == 0 {
        Option::Some(0)
    } else {
        let ghost s = v@.skip(pos as int);
        let one: Option<usize> = if pos < v.len() && v[pos] == '\t' {
            Option::Some(1)
        } else if v.len() - pos >= 4 && v[pos] == ' ' && v[pos + 1] == ' ' && v[pos + 2] == ' '
            && v[pos + 3] == ' ' {
            Option::Some(4)
        } else {
            Option::None
        };
        proof {
            assert forall|j: int| 0 <= j < 4 && pos + j < v@.len() implies s[j] == v@[pos + j] by {}
        }
        match one {
            Option::None => {
                assert(spec_indent_one(s) is None);
                Option::None
            },
            Option::Some(k) => {
                assert(spec_indent_one(s) == Option::Some(k as int));
                match indent(v, pos + k, n - 1) {
                    Option::None => {
                        assert(v@.skip((pos + k) as int) == s.skip(k as int));
                        Option::None
                    },
                    Option::Some(m) => {
                        assert(v@.skip((pos + k) as int) == s.skip(k as int));
                        Option::Some(k + m)
                    },
                }
            },
        }
    }
}

/// One or more horizontal-space characters (space or tab), the separator
/// between a tag and its value.
pub open spec fn spec_hspace1(s: Seq<char>) -> Option<int> {
    if hspace_run(s) > 0 {
        Option::Some(hspace_run(s))
    } else {
        Option::None
    }
}

/// Executable twin of [`spec_hspace1`].
pub fn hspace1(v: &Vec<char>, pos: usize) -> (r: Option<usize>)
    requires
        pos <= v@.len(),
    ensures
        match r {
            Option::Some(n) => spec_hspace1(v@.skip(pos as int)) == Option::Some(n as int) && pos
                + n <= v@.len(),
            Option::None => spec_hspace1(v@.skip(pos as int)) is None,
        },
{
    let n = scan_run(v, pos, 0);
    if n > 0 {
        Option::Some(n)
    } else {
        Option::None
    }
}

/// A comment line: `"// "`, then arbitrary text up to a line terminator,
/// which is consumed with it.  Contributes nothing to the object graph.
pub open spec fn spec_comment(s: Seq<char>) -> Option<int> {
    if s.len() >= 3 && s[0] == '/' && s[1] == '/' && s[2] == ' ' {
        let n = text_run(s.skip(3));
        if 3 + n < s.len() {
            Option::Some(3 + n + 1)
        } else {
            Option::None
        }
    } else {
        Option::None
    }
}

/// Executable twin of [`spec_comment`].
pub fn comment(v: &Vec<char>, pos: usize) -> (r: Option<usize>)
    requires
        pos <= v@.len(),
    ensures
        match r {
            Option::Some(n) => spec_comment(v@.skip(pos as int)) == Option::Some(n as int) && pos
                + n <= v@.len(),
            Option::None => spec_comment(v@.skip(pos as int)) is None,
        },
{
    let ghost s = v@.skip(pos as int);
    if v.len() - pos >= 3 && v[pos] == '/' && v[pos + 1] == '/' && v[pos + 2] == ' ' {
        proof {
            assert(s[0] == v@[pos as int]);
            assert(s[1] == v@[pos + 1]);
            assert(s[2] == v@[pos + 2]);
        }
        let ghost t = s.skip(3);
        let mut i: usize = pos + 3;
        while i < v.len() && v[i] != '\n'
            invariant
                pos + 3 <= i <= v@.len(),
                s == v@.skip(pos as int),
                t == s.skip(3),
                t =~= v@.skip(pos + 3),
                forall|j: int| 0 <= j < i - pos - 3 ==> t[j] != '\n',
            decreases v@.len() - i,
        {
            proof {
                assert(t[i - pos - 3] == v@[i as int]);
            }
            i = i + 1;
        }
        proof {
            if i < v@.len() {
                assert(t[i - pos - 3] == v@[i as int]);
            }
            lemma_text_run(t, i - pos - 3);
        }
        if i < v.len() {
            Option::Some(i - pos + 1)
        } else {
            Option::None
        }
    } else {
        proof {
            if s.len() >= 3 {
                assert(s[0] == v@[pos as int]);
                assert(s[1] == v@[pos + 1]);
                assert(s[2] == v@[pos + 2]);
            }
        }
        Option::None
    }
}

/// Length of the longest prefix of `s` without a backtick.
pub open spec fn tick_run(s: Seq<char>) -> int
    decreases s.len(),
{
    if s.len() > 0 && s[0] != '`' {
        1 + tick_run(s.skip(1))
    } else {
        0
    }
}

/// `tick_run` characterized by its endpoint, as [`lemma_hspace_run`].
pub proof fn lemma_tick_run(s: Seq<char>, i: int)
    requires
        0 <= i <= s.len(),
        forall|j: int| 0 <= j < i ==> s[j] != '`',
        i < s.len() ==> s[i] == '`',
    ensures
        tick_run(s) == i,
    decreases i,
{
    if i > 0 {
        lemma_tick_run(s.skip(1), i - 1);
    }
}

/// The numeric value of an all-digit character sequence, most significant
/// digit first.
pub open spec fn digits_val(s: Seq<char>) -> nat
    decreases s.len(),
{
    if s.len() == 0 {
        0
    } else {
        digits_val(s.drop_last()) * 10 + digit_val(s.last())
    }
}

/// A prefix of a digit sequence never has a larger value than the whole.
pub proof fn lemma_digits_val_prefix(s: Seq<char>, i: int)
    requires
        0 <= i <= s.len(),
    ensures
        digits_val(s.subrange(0, i)) <= digits_val(s),
    decreases s.len() - i,
{
    if i == s.len() {
        assert(s.subrange(0, i) =~= s);
    } else {
        assert(s.subrange(0, i + 1).drop_last() =~= s.subrange(0, i));
        assert(s.subrange(0, i + 1).last() == s[i]);
        lemma_digits_val_prefix(s, i + 1);
    }
}

/// The fatal error raised when a digit run does not fit its numeric type.
pub open spec fn numeric_fault() -> ErrV {
    ErrV {
        kind: ErrorKind::NumericConversionFault,
        context: Seq::empty(),
        field: Option::None,
        at: 0,
    }
}

/// Reads the value of the `n` digits at `pos`, or reports that it does not
/// fit in a `u64`.
fn digits_acc(v: &Vec<char>, pos: usize, n: usize) -> (r: Option<u64>)
    requires
        pos + n <= v@.len(),
        forall|j: int| 0 <= j < n ==> is_digit(#[trigger] v@[pos + j]),
    ensures
        match r {
            Option::Some(a) => a == digits_val(v@.subrange(pos as int, pos + n)),
            Option::None => digits_val(v@.subrange(pos as int, pos + n)) > u64::MAX,
        },
{
    let ghost s = v@.subrange(pos as int, pos + n);
    let vlen = v.len();
    let mut acc: u64 = 0;
    let mut k: usize = 0;
    while k < n
        invariant
            0 <= k <= n,
            pos + n <= v@.len(),
            v@.len() == vlen,
            s == v@.subrange(pos as int, pos + n),
            forall|j: int| 0 <= j < n ==> is_digit(#[trigger] v@[pos + j]),
            acc == digits_val(s.subrange(0, k as int)),
        decreases n - k,
    {
        proof {
            assert(s[k as int] == v@[pos + k]);
        }
        let c = v[pos + k];
        let d: u64 = ((c as u32) - 48) as u64;
        proof {
            assert(d == digit_val(s[k as int]));
            assert(s.subrange(0, k + 1).drop_last() =~= s.subrange(0, k as int));
            assert(s.subrange(0, k + 1).last() == s[k as int]);
        }
        if acc > (u64::MAX - d) / 10 {
            proof {
                assert(acc * 10 + d > u64::MAX) by (nonlinear_arith)
                    requires
                        acc > (u64::MAX - d) / 10,
                        d <= 9,
                        0 <= acc <= u64::MAX,
                {}
                assert(digits_val(s.subrange(0, k + 1)) > u64::MAX);
                lemma_digits_val_prefix(s, k + 1);
            }
            return Option::None;
        }
        acc = acc * 10 + d;
        k = k + 1;
    }
    proof {
        assert(s.subrange(0, n as int) =~= s);
    }
    Option::Some(acc)
}

/// An unsigned integer: a maximal run of decimal digits.  A run whose value
/// does not fit in 64 bits is a fatal conversion fault, not a mismatch.
pub open spec fn spec_u64(s: Seq<char>) -> SpecStep<u64> {
    let n = digit_run(s);
    if n == 0 {
        SpecStep::Miss
    } else if digits_val(s.subrange(0, n)) > u64::MAX {
        SpecStep::Fatal(numeric_fault())
    } else {
        SpecStep::Hit(n, digits_val(s.subrange(0, n)) as u64)
    }
}

/// Executable twin of [`spec_u64`].
pub fn u64_tok(v: &Vec<char>, pos: usize) -> (r: Step<u64>)
    requires
        pos <= v@.len(),
    ensures
        crate::err::step_ok(r, spec_u64(v@.skip(pos as int)), pos as int),
        r matches Step::Hit(n, _) ==> pos + n <= v@.len(),
{
    let ghost s = v@.skip(pos as int);
    let n = scan_run(v, pos, 2);
    if n == 0 {
        return Step::Miss;
    }
    proof {
        lemma_digit_run_bounds(s);
        assert forall|j: int| 0 <= j < n implies is_digit(#[trigger] v@[pos + j]) by {
            assert(s[j] == v@[pos + j]);
        }
        assert(v@.subrange(pos as int, pos + n) =~= s.subrange(0, n as int));
    }
    match digits_acc(v, pos, n) {
        Option::Some(a) => Step::Hit(n, a),
        Option::None => Step::Fatal(
            StructuredError {
                kind: ErrorKind::NumericConversionFault,
                context: Vec::new(),
                field: Option::None,
                at: pos,
            },
        ),
    }
}

/// A signed integer: an optional minus sign, then a digit run.  Values
/// outside the `i64` range are fatal conversion faults.
pub open spec fn spec_i64(s: Seq<char>) -> SpecStep<i64> {
    if s.len() > 0 && s[0] == '-' {
        match spec_u64(s.skip(1)) {
            SpecStep::Miss => SpecStep::Miss,
            SpecStep::Fatal(f) => SpecStep::Fatal(crate::err::shift_err(f, 1)),
            SpecStep::Hit(n, m) => if m > 0x8000000000000000u64 {
                SpecStep::Fatal(numeric_fault())
            } else {
                SpecStep::Hit(1 + n, (-(m as int)) as i64)
            },
        }
    } else {
        match spec_u64(s) {
            SpecStep::Miss => SpecStep::Miss,
            SpecStep::Fatal(f) => SpecStep::Fatal(f),
            SpecStep::Hit(n, m) => if m > i64::MAX as u64 {
                SpecStep::Fatal(numeric_fault())
            } else {
                SpecStep::Hit(n, m as i64)
            },
        }
    }
}

/// Executable twin of [`spec_i64`].
pub fn i64_tok(v: &Vec<char>, pos: usize) -> (r: Step<i64>)
    requires
        pos <= v@.len(),
    ensures
        crate::err::step_ok(r, spec_i64(v@.skip(pos as int)), pos as int),
        r matches Step::Hit(n, _) ==> pos + n <= v@.len(),
{
    let ghost s = v@.skip(pos as int);
    if pos < v.len() && v[pos] == '-' {
        proof {
            assert(s[0] == v@[pos as int]);
            assert(v@.skip(pos + 1) == s.skip(1));
        }
        match u64_tok(v, pos + 1) {
            Step::Miss => Step::Miss,
            Step::Fatal(e) => Step::Fatal(e),
            Step::Hit(n, m) => {
                if m > 0x8000000000000000u64 {
                    Step::Fatal(
                        StructuredError {
                            kind: ErrorKind::NumericConversionFault,
                            context: Vec::new(),
                            field: Option::None,
                            at: pos,
                        },
                    )
                } else if m == 0x8000000000000000u64 {
                    Step::Hit(1 + n, i64::MIN)
                } else {
                    Step::Hit(1 + n, -(m as i64))
                }
            },
        }
    } else {
        proof {
            if s.len() > 0 {
                assert(s[0] == v@[pos as int]);
            }
        }
        match u64_tok(v, pos) {
            Step::Miss => Step::Miss,
            Step::Fatal(e) => Step::Fatal(e),
            Step::Hit(n, m) => {
                if m > 0x7fffffffffffffffu64 {
                    Step::Fatal(
                        StructuredError {
                            kind: ErrorKind::NumericConversionFault,
                            context: Vec::new(),
                            field: Option::None,
                            at: pos,
                        },
                    )
                } else {
                    Step::Hit(n, m as i64)
                }
            },
        }
    }
}

/// A decimal literal: an optional minus sign, then digits with an optional
/// decimal point (`12`, `12.`, `12.5`, `.5`, `-0.01`).  At least one digit
/// must be present.  Parts that do not fit their fields are fatal
/// conversion faults.
pub open spec fn spec_dec(s: Seq<char>) -> SpecStep<Decimal> {
    let neg = s.len() > 0 && s[0] == '-';
    let sign: int = if neg {
        1int
    } else {
        0int
    };
    let t = s.skip(sign);
    let ni = digit_run(t);
    let iv = digits_val(t.subrange(0, ni));
    if ni < t.len() && t[ni] == '.' {
        let u = t.skip(ni + 1);
        let nf = digit_run(u);
        let fv = digits_val(u.subrange(0, nf));
        if ni == 0 && nf == 0 {
            SpecStep::Miss
        } else if iv > u64::MAX || fv > u64::MAX || nf > u32::MAX {
            SpecStep::Fatal(numeric_fault())
        } else {
            SpecStep::Hit(
                sign + ni + 1 + nf,
                Decimal {
                    negative: neg,
                    int_part: iv as u64,
                    frac_part: fv as u64,
                    frac_len: nf as u32,
                },
            )
        }
    } else {
        if ni == 0 {
            SpecStep::Miss
        } else if iv > u64::MAX {
            SpecStep::Fatal(numeric_fault())
        } else {
            SpecStep::Hit(
                sign + ni,
                Decimal { negative: neg, int_part: iv as u64, frac_part: 0u64, frac_len: 0u32 },
            )
        }
    }
}

/// Executable twin of [`spec_dec`].
#[verifier::rlimit(100)]
#[verifier::spinoff_prover]
pub fn dec_tok(v: &Vec<char>, pos: usize) -> (r: Step<Decimal>)
    requires
        pos <= v@.len(),
    ensures
        crate::err::step_ok(r, spec_dec(v@.skip(pos as int)), pos as int),
        r matches Step::Hit(n, _) ==> pos + n <= v@.len(),
{
    let ghost s = v@.skip(pos as int);
    let neg = pos < v.len() && v[pos] == '-';
    let sign: usize = if neg {
        1
    } else {
        0
    };
    proof {
        if s.len() > 0 {
            assert(s[0] == v@[pos as int]);
        }
        assert(v@.skip((pos + sign) as int) == s.skip(sign as int));
    }
    let p0 = pos + sign;
    let ghost t = s.skip(sign as int);
    let ni = scan_run(v, p0, 2);
    proof {
        lemma_digit_run_bounds(t);
        assert forall|j: int| 0 <= j < ni implies is_digit(#[trigger] v@[p0 + j]) by {
            assert(t[j] == v@[p0 + j]);
        }
        assert(v@.subrange(p0 as int, p0 + ni) =~= t.subrange(0, ni as int));
    }
    if p0 + ni < v.len() && v[p0 + ni] == '.' {
        proof {
            assert(t[ni as int] == v@[p0 + ni]);
        }
        let p1 = p0 + ni + 1;
        let ghost u = t.skip(ni + 1);
        proof {
            assert(v@.skip(p1 as int) == u);
        }
        let nf = scan_run(v, p1, 2);
        proof {
            lemma_digit_run_bounds(u);
            assert forall|j: int| 0 <= j < nf implies is_digit(#[trigger] v@[p1 + j]) by {
                assert(u[j] == v@[p1 + j]);
            }
            assert(v@.subrange(p1 as int, p1 + nf) =~= u.subrange(0, nf as int));
        }
        if ni == 0 && nf == 0 {
            return Step::Miss;
        }
        let iv = match digits_acc(v, p0, ni) {
            Option::Some(a) => a,
            Option::None => {
                return Step::Fatal(
                    StructuredError {
                        kind: ErrorKind::NumericConversionFault,
                        context: Vec::new(),
                        field: Option::None,
                        at: pos,
                    },
                );
            },
        };
        let fv = match digits_acc(v, p1, nf) {
            Option::Some(a) => a,
            Option::None => {
                return Step::Fatal(
                    StructuredError {
                        kind: ErrorKind::NumericConversionFault,
                        context: Vec::new(),
                        field: Option::None,
                        at: pos,
                    },
                );
            },
        };
        if nf > 0xffffffffusize {
            return Step::Fatal(
                StructuredError {
                    kind: ErrorKind::NumericConversionFault,
                    context: Vec::new(),
                    field: Option::None,
                    at: pos,
                },
            );
        }
        Step::Hit(
            sign + ni + 1 + nf,
            Decimal { negative: neg, int_part: iv, frac_part: fv, frac_len: nf as u32 },
        )
    } else {
        proof {
            if ni < t.len() {
                assert(t[ni as int] == v@[p0 + ni]);
            }
        }
        if ni == 0 {
            return Step::Miss;
        }
        let iv = match digits_acc(v, p0, ni) {
            Option::Some(a) => a,
            Option::None => {
                return Step::Fatal(
                    StructuredError {
                        kind: ErrorKind::NumericConversionFault,
                        context: Vec::new(),
                        field: Option::None,
                        at: pos,
                    },
                );
            },
        };
        Step::Hit(sign + ni, Decimal { negative: neg, int_part: iv, frac_part: 0, frac_len: 0 })
    }
}

/// A date: three integers separated by horizontal space, in day month year
/// source order, stored normalized as year, month, day.  A component that
/// does not fit its field is a fatal conversion fault.
pub open spec fn spec_date(s: Seq<char>) -> SpecStep<Date> {
    match spec_u64(s) {
        SpecStep::Miss => SpecStep::Miss,
        SpecStep::Fatal(f) => SpecStep::Fatal(f),
        SpecStep::Hit(n1, day) => match spec_hspace1(s.skip(n1)) {
            Option::None => SpecStep::Miss,
            Option::Some(h1) => match spec_u64(s.skip(n1 + h1)) {
                SpecStep::Miss => SpecStep::Miss,
                SpecStep::Fatal(f) => SpecStep::Fatal(crate::err::shift_err(f, n1 + h1)),
                SpecStep::Hit(n2, month) => match spec_hspace1(s.skip(n1 + h1 + n2)) {
                    Option::None => SpecStep::Miss,
                    Option::Some(h2) => match spec_u64(s.skip(n1 + h1 + n2 + h2)) {
                        SpecStep::Miss => SpecStep::Miss,
                        SpecStep::Fatal(f) => SpecStep::Fatal(
                            crate::err::shift_err(f, n1 + h1 + n2 + h2),
                        ),
                        SpecStep::Hit(n3, year) => if day > 255 || month > 255 || year > 65535 {
                            SpecStep::Fatal(numeric_fault())
                        } else {
                            SpecStep::Hit(
                                n1 + h1 + n2 + h2 + n3,
                                Date { year: year as u16, month: month as u8, day: day as u8 },
                            )
                        },
                    },
                },
            },
        },
    }
}

/// Executable twin of [`spec_date`].
#[verifier::rlimit(100)]
#[verifier::spinoff_prover]
pub fn date_tok(v: &Vec<char>, pos: usize) -> (r: Step<Date>)
    requires
        pos <= v@.len(),
    ensures
        crate::err::step_ok(r, spec_date(v@.skip(pos as int)), pos as int),
        r matches Step::Hit(n, _) ==> pos + n <= v@.len(),
{
    let ghost s = v@.skip(pos as int);
    let vlen = v.len();
    let (n1, day) = match u64_tok(v, pos) {
        Step::Miss => {
            return Step::Miss;
        },
        Step::Fatal(e) => {
            return Step::Fatal(e);
        },
        Step::Hit(n, d) => (n, d),
    };
    proof {
        assert(v@.skip((pos + n1) as int) == s.skip(n1 as int));
    }
    let h1 = match hspace1(v, pos + n1) {
        Option::None => {
            return Step::Miss;
        },
        Option::Some(h) => h,
    };
    proof {
        assert(v@.skip((pos + n1 + h1) as int) == s.skip(n1 + h1));
    }
    let (n2, month) = match u64_tok(v, pos + n1 + h1) {
        Step::Miss => {
            return Step::Miss;
        },
        Step::Fatal(e) => {
            return Step::Fatal(e);
        },
        Step::Hit(n, m) => (n, m),
    };
    proof {
        assert(v@.skip((pos + n1 + h1 + n2) as int) == s.skip(n1 + h1 + n2));
    }
    let h2 = match hspace1(v, pos + n1 + h1 + n2) {
        Option::None => {
            return Step::Miss;
        },
        Option::Some(h) => h,
    };
    proof {
        assert(v@.skip((pos + n1 + h1 + n2 + h2) as int) == s.skip(n1 + h1 + n2 + h2));
    }
    let (n3, year) = match u64_tok(v, pos + n1 + h1 + n2 + h2) {
        Step::Miss => {
            return Step::Miss;
        },
        Step::Fatal(e) => {
            return Step::Fatal(e);
        },
        Step::Hit(n, y) => (n, y),
    };
    if day > 255 || month > 255 || year > 65535 {
        Step::Fatal(
            StructuredError {
                kind: ErrorKind::NumericConversionFault,
                context: Vec::new(),
                field: Option::None,
                at: pos,
            },
        )
    } else {
        Step::Hit(
            n1 + h1 + n2 + h2 + n3,
            Date { year: year as u16, month: month as u8, day: day as u8 },
        )
    }
}

/// Whether `c` may follow a backslash inside a double-quoted string.
pub open spec fn is_esc(c: char) -> bool {
    c == '"' || c == 'n' || c == '\\'
}

/// The scan of a double-quoted string body from index `i`: the index of the
/// closing quote, or the index at which the body turned out malformed (the
/// end of input for an unterminated string, a bad escape, or a raw line
/// terminator).
pub open spec fn quoted_scan(s: Seq<char>, i: int) -> ScanRes
    decreases s.len() - i,
{
    if i < 0 || i >= s.len() {
        ScanRes::Bad(s.len() as int)
    } else if s[i] == '"' {
        ScanRes::Close(i)
    } else if s[i] == '\n' {
        ScanRes::Bad(i)
    } else if s[i] == '\\' {
        if i + 1 < s.len() && is_esc(s[i + 1]) {
            quoted_scan(s, i + 2)
        } else {
            ScanRes::Bad(i)
        }
    } else {
        quoted_scan(s, i + 1)
    }
}

/// Outcome of scanning for the end of a committed string body.
pub enum ScanRes {
    /// The body is well formed and closed by the delimiter at this index.
    Close(int),
    /// The body is malformed from this index on.
    Bad(int),
}

/// The fatal error for a committed string form that could not complete.
pub open spec fn string_fault(at: int) -> ErrV {
    ErrV {
        kind: ErrorKind::IncompleteAfterCommit,
        context: Seq::empty(),
        field: Option::None,
        at: at,
    }
}

/// A double-quoted string literal: `"` commits, then any characters other
/// than `"`, `\` and the line terminator, with `\"`, `\n` and `\\` escape
/// pairs kept verbatim, then `"`.  The value is the body between the
/// quotes, escapes unprocessed.  A committed body that cannot complete is
/// fatal.
pub open spec fn spec_quoted(s: Seq<char>) -> SpecStep<Seq<char>> {
    if s.len() > 0 && s[0] == '"' {
        match quoted_scan(s, 1) {
            ScanRes::Close(j) => SpecStep::Hit(j + 1, s.subrange(1, j)),
            ScanRes::Bad(k) => SpecStep::Fatal(string_fault(k)),
        }
    } else {
        SpecStep::Miss
    }
}

/// Executable twin of [`spec_quoted`].  `src` is the original input text;
/// `v` holds its characters.
#[verifier::rlimit(100)]
#[verifier::spinoff_prover]
pub fn quoted_tok(src: &str, v: &Vec<char>, pos: usize) -> (r: Step<String>)
    requires
        v@ == src@,
        pos <= v@.len(),
    ensures
        crate::err::step_ok(r, spec_quoted(v@.skip(pos as int)), pos as int),
        r matches Step::Hit(n, _) ==> pos + n <= v@.len(),
{
    let ghost s = v@.skip(pos as int);
    if !(pos < v.len() && v[pos] == '"') {
        proof {
            if s.len() > 0 {
                assert(s[0] == v@[pos as int]);
            }
        }
        return Step::Miss;
    }
    proof {
        assert(s[0] == v@[pos as int]);
    }
    let mut i: usize = pos + 1;
    loop
        invariant
            v@ == src@,
            pos + 1 <= i <= v@.len(),
            s == v@.skip(pos as int),
            s.len() > 0 && s[0] == '"',
            quoted_scan(s, 1) == quoted_scan(s, i - pos),
        decreases v@.len() - i,
    {
        if i >= v.len() {
            proof {
                assert(quoted_scan(s, i - pos) == ScanRes::Bad(s.len() as int));
            }
            return Step::Fatal(
                StructuredError {
                    kind: ErrorKind::IncompleteAfterCommit,
                    context: Vec::new(),
                    field: Option::None,
                    at: v.len(),
                },
            );
        }
        let c = v[i];
        proof {
            assert(s[i - pos] == v@[i as int]);
        }
        if c == '"' {
            proof {
                assert(quoted_scan(s, i - pos) == ScanRes::Close(i - pos));
                assert(src@.subrange(pos + 1, i as int) =~= s.subrange(1, i - pos));
            }
            let content = String::from_str(src.substring_char(pos + 1, i));
            return Step::Hit(i + 1 - pos, content);
        } else if c == '\n' {
            proof {
                assert(quoted_scan(s, i - pos) == ScanRes::Bad(i - pos));
            }
            return Step::Fatal(
                StructuredError {
                    kind: ErrorKind::IncompleteAfterCommit,
                    context: Vec::new(),
                    field: Option::None,
                    at: i,
                },
            );
        } else if c == '\\' {
            if i + 1 < v.len() && (v[i + 1] == '"' || v[i + 1] == 'n' || v[i + 1] == '\\') {
                proof {
                    assert(s[i + 1 - pos] == v@[i + 1]);
                }
                i = i + 2;
            } else {
                proof {
                    if i + 1 < v@.len() {
                        assert(s[i + 1 - pos] == v@[i + 1]);
                    }
                    assert(quoted_scan(s, i - pos) == ScanRes::Bad(i - pos));
                }
                return Step::Fatal(
                    StructuredError {
                        kind: ErrorKind::IncompleteAfterCommit,
                        context: Vec::new(),
                        field: Option::None,
                        at: i,
                    },
                );
            }
        } else {
            i = i + 1;
        }
    }
}

/// A bare token: a maximal nonempty run of alphanumeric characters.
pub open spec fn spec_bare_tok(s: Seq<char>) -> SpecStep<Seq<char>> {
    let n = bare_run(s);
    if n > 0 {
        SpecStep::Hit(n, s.subrange(0, n))
    } else {
        SpecStep::Miss
    }
}

/// A backtick-delimited raw string: a backtick commits, the body runs to
/// the next backtick with no escaping (it may span line terminators and
/// hold double quotes), and an unterminated body is fatal.
pub open spec fn spec_backtick(s: Seq<char>) -> SpecStep<Seq<char>> {
    if s.len() > 0 && s[0] == '`' {
        let n = tick_run(s.skip(1));
        if 1 + n < s.len() {
            SpecStep::Hit(n + 2, s.subrange(1, 1 + n))
        } else {
            SpecStep::Fatal(string_fault(s.len() as int))
        }
    } else {
        SpecStep::Miss
    }
}

/// Executable twin of [`spec_backtick`].
pub fn backtick_tok(src: &str, v: &Vec<char>, pos: usize) -> (r: Step<String>)
    requires
        v@ == src@,
        pos <= v@.len(),
    ensures
        crate::err::step_ok(r, spec_backtick(v@.skip(pos as int)), pos as int),
        r matches Step::Hit(n, _) ==> pos + n <= v@.len(),
{
    let ghost s = v@.skip(pos as int);
    if !(pos < v.len() && v[pos] == '`') {
        proof {
            if s.len() > 0 {
                assert(s[0] == v@[pos as int]);
            }
        }
        return Step::Miss;
    }
    proof {
        assert(s[0] == v@[pos as int]);
        assert(v@.skip(pos + 1) == s.skip(1));
    }
    let ghost t = s.skip(1);
    let mut i: usize = pos + 1;
    while i < v.len() && v[i] != '`'
        invariant
            v@ == src@,
            pos + 1 <= i <= v@.len(),
            s == v@.skip(pos as int),
            t == s.skip(1),
            forall|j: int| 0 <= j < i - pos - 1 ==> t[j] != '`',
        decreases v@.len() - i,
    {
        proof {
            assert(t[i - pos - 1] == v@[i as int]);
        }
        i = i + 1;
    }
    proof {
        if i < v@.len() {
            assert(t[i - pos - 1] == v@[i as int]);
        }
        lemma_tick_run(t, i - pos - 1);
    }
    if i < v.len() {
        proof {
            assert(src@.subrange(pos + 1, i as int) =~= s.subrange(1, i - pos));
        }
        let content = String::from_str(src.substring_char(pos + 1, i));
        Step::Hit(i + 1 - pos, content)
    } else {
        Step::Fatal(
            StructuredError {
                kind: ErrorKind::IncompleteAfterCommit,
                context: Vec::new(),
                field: Option::None,
                at: v.len(),
            },
        )
    }
}

/// A string literal, by ordered choice: the double-quoted form, then a
/// bare token, then the backtick form.  A committed double-quoted body
/// that cannot complete is fatal and the later forms are not tried.
pub open spec fn spec_string(s: Seq<char>) -> SpecStep<Seq<char>> {
    match spec_quoted(s) {
        SpecStep::Fatal(f) => SpecStep::Fatal(f),
        SpecStep::Hit(n, c) => SpecStep::Hit(n, c),
        SpecStep::Miss => match spec_bare_tok(s) {
            SpecStep::Hit(n, c) => SpecStep::Hit(n, c),
            _ => spec_backtick(s),
        },
    }
}

/// Executable twin of [`spec_string`].
pub fn string_tok(src: &str, v: &Vec<char>, pos: usize) -> (r: Step<String>)
    requires
        v@ == src@,
        pos <= v@.len(),
    ensures
        crate::err::step_ok(r, spec_string(v@.skip(pos as int)), pos as int),
        r matches Step::Hit(n, _) ==> pos + n <= v@.len(),
{
    let ghost s = v@.skip(pos as int);
    let vlen = v.len();
    match quoted_tok(src, v, pos) {
        Step::Fatal(e) => Step::Fatal(e),
        Step::Hit(n, c) => Step::Hit(n, c),
        Step::Miss => {
            let n = scan_run(v, pos, 1);
            if n > 0 {
                proof {
                    assert(src@.subrange(pos as int, pos + n) =~= s.subrange(0, n as int));
                }
                let content = String::from_str(src.substring_char(pos, pos + n));
                Step::Hit(n, content)
            } else {
                backtick_tok(src, v, pos)
            }
        },
    }
}

/// Each run is at most as long as its suffix.
pub proof fn lemma_run_le_len(s: Seq<char>)
    ensures
        0 <= hspace_run(s) <= s.len(),
        0 <= bare_run(s) <= s.len(),
        0 <= tick_run(s) <= s.len(),
        0 <= text_run(s) <= s.len(),
    decreases s.len(),
{
    if s.len() > 0 {
        lemma_run_le_len(s.skip(1));
    }
}

/// A close found by `quoted_scan` lies between the scan start and the end
/// of the suffix; a bad index never lies past the end.
pub proof fn lemma_quoted_scan_bounds(s: Seq<char>, i: int)
    requires
        0 <= i,
    ensures
        match quoted_scan(s, i) {
            ScanRes::Close(j) => i <= j < s.len(),
            ScanRes::Bad(k) => 0 <= k <= s.len(),
        },
    decreases s.len() - i,
{
    if i < s.len() {
        if s[i] == '"' {
        } else if s[i] == '\n' {
        } else if s[i] == '\\' {
            if i + 1 < s.len() && is_esc(s[i + 1]) {
                lemma_quoted_scan_bounds(s, i + 2);
            }
        } else {
            lemma_quoted_scan_bounds(s, i + 1);
        }
    }
}

/// A string literal hit consumes at least one character and at most the
/// whole suffix.
pub proof fn lemma_spec_string_len(s: Seq<char>)
    ensures
        spec_string(s) matches SpecStep::Hit(n, _) ==> 1 <= n <= s.len(),
{
    lemma_run_le_len(s);
    if s.len() > 0 && s[0] == '"' {
        lemma_quoted_scan_bounds(s, 1);
    }
    if s.len() > 0 && s[0] == '`' {
        lemma_run_le_len(s.skip(1));
    }
}

/// An unsigned integer hit consumes at least one character and at most the
/// whole suffix.
pub proof fn lemma_spec_u64_len(s: Seq<char>)
    ensures
        spec_u64(s) matches SpecStep::Hit(n, _) ==> 1 <= n <= s.len(),
{
    lemma_digit_run_bounds(s);
}

/// A signed integer hit consumes at least one character and at most the
/// whole suffix.
pub proof fn lemma_spec_i64_len(s: Seq<char>)
    ensures
        spec_i64(s) matches SpecStep::Hit(n, _) ==> 1 <= n <= s.len(),
{
    lemma_spec_u64_len(s);
    if s.len() > 0 && s[0] == '-' {
        lemma_spec_u64_len(s.skip(1));
    }
}

/// A decimal hit consumes at least one character and at most the whole
/// suffix.
pub proof fn lemma_spec_dec_len(s: Seq<char>)
    ensures
        spec_dec(s) matches SpecStep::Hit(n, _) ==> 1 <= n <= s.len(),
{
    let neg = s.len() > 0 && s[0] == '-';
    let sign: int = if neg {
        1int
    } else {
        0int
    };
    let t = s.skip(sign);
    lemma_digit_run_bounds(t);
    let ni = digit_run(t);
    if ni < t.len() && t[ni] == '.' {
        lemma_digit_run_bounds(t.skip(ni + 1));
    }
}

/// A date hit consumes at least one character and at most the whole
/// suffix.
pub proof fn lemma_spec_date_len(s: Seq<char>)
    ensures
        spec_date(s) matches SpecStep::Hit(n, _) ==> 1 <= n <= s.len(),
{
    lemma_spec_u64_len(s);
    if let SpecStep::Hit(n1, _) = spec_u64(s) {
        lemma_run_le_len(s.skip(n1));
        if let Option::Some(h1) = spec_hspace1(s.skip(n1)) {
            lemma_spec_u64_len(s.skip(n1 + h1));
            if let SpecStep::Hit(n2, _) = spec_u64(s.skip(n1 + h1)) {
                lemma_run_le_len(s.skip(n1 + h1 + n2));
                if let Option::Some(h2) = spec_hspace1(s.skip(n1 + h1 + n2)) {
                    lemma_spec_u64_len(s.skip(n1 + h1 + n2 + h2));
                }
            }
        }
    }
}

} // verus!
