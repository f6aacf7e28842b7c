//! The field engine: the table-driven parser for the leaf fields of a
//! record.
//!
//! Each record kind lists its single-line fields as a table of
//! descriptors: the indentation depth, the literal tag text, the value
//! kind, and the slot the parsed value lands in.  One pass of the engine
//! repeatedly offers the remaining input to every descriptor, in table
//! order, collecting the parsed items until none matches.  Nested
//! sub-blocks (a tribute, an account, a sprite, a weapon, a system
//! object) are not table entries; the record parsers interleave them with
//! engine passes.

use vstd::prelude::*;

use crate::err::{shift_err, step_ok, ErrV, SpecStep, Step, StructuredError};
use crate::lex::{
    dec_tok, hspace1, i64_tok, indent, line_end, spec_dec, spec_hspace1, spec_i64, spec_indent,
    spec_line_end, spec_string, spec_u64, string_tok, u64_tok,
};
use crate::types::{Date, Decimal};
use vstd::string::StrSliceExecFns;

verus! {

/// The kinds of single-line field values.
#[derive(Debug, Clone, Copy, PartialEq, Eq, Structural)]
pub enum ValueKind {
    /// One string literal.
    KStr,
    /// One or more string literals separated by horizontal space.
    KStrList,
    /// An unsigned integer.
    KU64,
    /// A signed integer.
    KI64,
    /// A decimal literal.
    KDec,
    /// One or more decimal literals separated by horizontal space.
    KDecList,
    /// A string literal, then an unsigned integer.
    KStrU64,
    /// A string literal, an unsigned integer, and a decimal literal.
    KStrU64Dec,
    /// A string literal, then an optional signed integer.
    KStrOptInt,
    /// A date: three unsigned integers.
    KDate,
    /// No value: the tag line itself is the value.
    KFlag,
    /// Two decimal literals.
    KDecPair,
}

/// A parsed field value.
#[derive(Debug)]
pub enum Value {
    VStr(String),
    VStrList(Vec<String>),
    VU64(u64),
    VI64(i64),
    VDec(Decimal),
    VDecList(Vec<Decimal>),
    VStrU64(String, u64),
    VStrU64Dec(String, u64, Decimal),
    VStrOptInt(String, Option<i64>),
    VDate(Date),
    VDecPair(Decimal, Decimal),
    VFlag,
}

/// Spec view of [`Value`].
pub enum ValueV {
    VStr(Seq<char>),
    VStrList(Seq<Seq<char>>),
    VU64(u64),
    VI64(i64),
    VDec(Decimal),
    VDecList(Seq<Decimal>),
    VStrU64(Seq<char>, u64),
    VStrU64Dec(Seq<char>, u64, Decimal),
    VStrOptInt(Seq<char>, Option<i64>),
    VDate(Date),
    VDecPair(Decimal, Decimal),
    VFlag,
}

impl View for Value {
    type V = ValueV;

    open spec fn view(&self) -> ValueV {
        match self {
            Value::VStr(x) => ValueV::VStr(x@),
            Value::VStrList(x) => ValueV::VStrList(crate::types::strs_view(x@)),
            Value::VU64(x) => ValueV::VU64(*x),
            Value::VI64(x) => ValueV::VI64(*x),
            Value::VDec(x) => ValueV::VDec(*x),
            Value::VDecList(x) => ValueV::VDecList(x@),
            Value::VStrU64(x, y) => ValueV::VStrU64(x@, *y),
            Value::VStrU64Dec(x, y, z) => ValueV::VStrU64Dec(x@, *y, *z),
            Value::VStrOptInt(x, y) => ValueV::VStrOptInt(x@, *y),
            Value::VDate(x) => ValueV::VDate(*x),
            Value::VDecPair(x, y) => ValueV::VDecPair(*x, *y),
            Value::VFlag => ValueV::VFlag,
        }
    }
}

/// One parsed field: the slot it belongs to and its value.
#[derive(Debug)]
pub struct Item {
    /// The slot of the record the value lands in.
    pub slot: usize,
    /// The parsed value.
    pub value: Value,
}

/// Spec view of [`Item`].
pub struct ItemV {
    pub slot: int,
    pub value: ValueV,
}

impl View for Item {
    type V = ItemV;

    open spec fn view(&self) -> ItemV {
        ItemV { slot: self.slot as int, value: self.value@ }
    }
}

/// The view of a sequence of parsed items.
pub open spec fn vitems(items: Seq<Item>) -> Seq<ItemV> {
    items.map_values(|it: Item| it@)
}

/// A field descriptor: depth, tag text, value kind and target slot.
#[derive(Debug, Clone, Copy)]
pub struct Desc {
    /// Indentation depth of the field line.
    pub depth: usize,
    /// The literal tag text (quoted tags include their quotes).
    pub tag: &'static str,
    /// The kind of value that follows the tag.
    pub kind: ValueKind,
    /// The slot of the record the value lands in.
    pub slot: usize,
}

/// One or more string literals separated by horizontal space: the items
/// after the first.  Backtracks over trailing space that is not followed
/// by another string.
pub open spec fn spec_str_list_tail(s: Seq<char>) -> SpecStep<Seq<Seq<char>>>
    decreases s.len(),
{
    match spec_hspace1(s) {
        Option::None => SpecStep::Hit(0, Seq::empty()),
        Option::Some(h) => match spec_string(s.skip(h)) {
            SpecStep::Miss => SpecStep::Hit(0, Seq::empty()),
            SpecStep::Fatal(f) => SpecStep::Fatal(shift_err(f, h)),
            SpecStep::Hit(n, c) => if 0 < h + n <= s.len() {
                match spec_str_list_tail(s.skip(h + n)) {
                    SpecStep::Fatal(f2) => SpecStep::Fatal(shift_err(f2, h + n)),
                    SpecStep::Hit(m, rest) => SpecStep::Hit(h + n + m, seq![c] + rest),
                    SpecStep::Miss => SpecStep::Miss,
                }
            } else {
                SpecStep::Hit(0, Seq::empty())
            },
        },
    }
}

/// One or more string literals separated by horizontal space.
pub open spec fn spec_str_list(s: Seq<char>) -> SpecStep<Seq<Seq<char>>> {
    match spec_string(s) {
        SpecStep::Miss => SpecStep::Miss,
        SpecStep::Fatal(f) => SpecStep::Fatal(f),
        SpecStep::Hit(n, c) => if 0 < n <= s.len() {
            match spec_str_list_tail(s.skip(n)) {
                SpecStep::Fatal(f2) => SpecStep::Fatal(shift_err(f2, n)),
                SpecStep::Hit(m, rest) => SpecStep::Hit(n + m, seq![c] + rest),
                SpecStep::Miss => SpecStep::Miss,
            }
        } else {
            SpecStep::Miss
        },
    }
}

/// The string-list tail never reports a recoverable mismatch.
pub proof fn lemma_str_list_tail_not_miss(s: Seq<char>)
    ensures
        !(spec_str_list_tail(s) is Miss),
    decreases s.len(),
{
    match spec_hspace1(s) {
        Option::None => {},
        Option::Some(h) => {
            match spec_string(s.skip(h)) {
                SpecStep::Hit(n, c) => {
                    if 0 < h + n <= s.len() {
                        lemma_str_list_tail_not_miss(s.skip(h + n));
                    }
                },
                _ => {},
            }
        },
    }
}

/// A string-list tail hit consumes at most the whole suffix.
pub proof fn lemma_str_list_tail_len(s: Seq<char>)
    ensures
        spec_str_list_tail(s) matches SpecStep::Hit(m, _) ==> 0 <= m <= s.len(),
    decreases s.len(),
{
    match spec_hspace1(s) {
        Option::None => {},
        Option::Some(h) => {
            match spec_string(s.skip(h)) {
                SpecStep::Hit(n, c) => {
                    if 0 < h + n <= s.len() {
                        lemma_str_list_tail_len(s.skip(h + n));
                    }
                },
                _ => {},
            }
        },
    }
}

/// A string-list hit consumes at least one character and at most the
/// whole suffix.
pub proof fn lemma_str_list_len(s: Seq<char>)
    ensures
        spec_str_list(s) matches SpecStep::Hit(n, _) ==> 1 <= n <= s.len(),
{
    crate::lex::lemma_spec_string_len(s);
    match spec_string(s) {
        SpecStep::Hit(n, c) => {
            if 0 < n <= s.len() {
                lemma_str_list_tail_len(s.skip(n));
            }
        },
        _ => {},
    }
}

/// Executable twin of [`spec_str_list`].
pub fn str_list_tok(src: &str, v: &Vec<char>, pos: usize) -> (r: Step<Vec<String>>)
    requires
        v@ == src@,
        pos <= v@.len(),
    ensures
        match r {
            Step::Miss => spec_str_list(v@.skip(pos as int)) is Miss,
            Step::Fatal(e) => spec_str_list(v@.skip(pos as int)) matches SpecStep::Fatal(f)
                && crate::err::err_ok(e, f, pos as int),
            Step::Hit(n, val) => spec_str_list(v@.skip(pos as int)) matches SpecStep::Hit(m, w)
                && n == m && crate::types::strs_view(val@) == w,
        },
        r matches Step::Hit(n, _) ==> pos + n <= v@.len(),
{
    let ghost s0 = v@.skip(pos as int);
    let vlen = v.len();
    let first = match string_tok(src, v, pos) {
        Step::Miss => {
            return Step::Miss;
        },
        Step::Fatal(e) => {
            return Step::Fatal(e);
        },
        Step::Hit(n, c) => (n, c),
    };
    let ghost c0 = first.1@;
    proof {
        crate::lex::lemma_spec_string_len(s0);
    }
    let mut cur: usize = pos + first.0;
    let mut acc: Vec<String> = Vec::new();
    acc.push(first.1);
    proof {
        lemma_str_list_tail_not_miss(s0.skip(cur - pos));
        lemma_str_list_tail_len(s0.skip(cur - pos));
        assert(v@.skip(cur as int) == s0.skip(cur - pos));
        assert(crate::types::strs_view(acc@) =~= seq![c0]);
        assert forall|rest: Seq<Seq<char>>|
            true implies (seq![c0] + rest) =~= (crate::types::strs_view(acc@) + rest) by {}
    }
    loop
        invariant
            v@ == src@,
            vlen == v@.len(),
            pos <= cur <= v@.len(),
            s0 == v@.skip(pos as int),
            acc@.len() >= 1,
            ({
                let done = crate::types::strs_view(acc@);
                match spec_str_list_tail(v@.skip(cur as int)) {
                    SpecStep::Hit(m, rest) => spec_str_list(s0) == SpecStep::Hit(
                        cur - pos + m,
                        done + rest,
                    ),
                    SpecStep::Fatal(f) => spec_str_list(s0) == SpecStep::<Seq<Seq<char>>>::Fatal(
                        shift_err(f, cur - pos),
                    ),
                    SpecStep::Miss => false,
                }
            }),
        decreases v@.len() - cur,
    {
        let ghost scur = v@.skip(cur as int);
        proof {
            lemma_str_list_tail_not_miss(scur);
        }
        let h = match hspace1(v, cur) {
            Option::None => {
                return Step::Hit(cur - pos, acc);
            },
            Option::Some(h) => h,
        };
        proof {
            assert(v@.skip((cur + h) as int) == scur.skip(h as int));
        }
        match string_tok(src, v, cur + h) {
            Step::Miss => {
                return Step::Hit(cur - pos, acc);
            },
            Step::Fatal(e) => {
                return Step::Fatal(e);
            },
            Step::Hit(n, c) => {
                let ghost cv = c@;
                let ghost prev = crate::types::strs_view(acc@);
                proof {
                    crate::lex::lemma_spec_string_len(scur.skip(h as int));
                    lemma_str_list_tail_not_miss(scur.skip(h + n));
                    lemma_str_list_tail_len(scur.skip(h + n));
                    assert(v@.skip((cur + h + n) as int) == scur.skip(h + n));
                }
                acc.push(c);
                proof {
                    assert(crate::types::strs_view(acc@) =~= prev.push(cv));
                    let scur2 = scur.skip(h + n);
                    match spec_str_list_tail(scur2) {
                        SpecStep::Hit(m2, rest2) => {
                            assert(spec_str_list_tail(scur) == SpecStep::Hit(
                                h + n + m2,
                                seq![cv] + rest2,
                            ));
                            assert((prev + (seq![cv] + rest2)) =~= (crate::types::strs_view(acc@)
                                + rest2));
                        },
                        SpecStep::Fatal(f2) => {
                            assert(spec_str_list_tail(scur) == SpecStep::<Seq<Seq<char>>>::Fatal(
                                shift_err(f2, h + n),
                            ));
                        },
                        SpecStep::Miss => {},
                    }
                }
                cur = cur + h + n;
            },
        }
    }
}

/// One or more decimal literals separated by horizontal space: the items
/// after the first.
pub open spec fn spec_dec_list_tail(s: Seq<char>) -> SpecStep<Seq<Decimal>>
    decreases s.len(),
{
    match spec_hspace1(s) {
        Option::None => SpecStep::Hit(0, Seq::empty()),
        Option::Some(h) => match spec_dec(s.skip(h)) {
            SpecStep::Miss => SpecStep::Hit(0, Seq::empty()),
            SpecStep::Fatal(f) => SpecStep::Fatal(shift_err(f, h)),
            SpecStep::Hit(n, c) => if 0 < h + n <= s.len() {
                match spec_dec_list_tail(s.skip(h + n)) {
                    SpecStep::Fatal(f2) => SpecStep::Fatal(shift_err(f2, h + n)),
                    SpecStep::Hit(m, rest) => SpecStep::Hit(h + n + m, seq![c] + rest),
                    SpecStep::Miss => SpecStep::Miss,
                }
            } else {
                SpecStep::Hit(0, Seq::empty())
            },
        },
    }
}

/// One or more decimal literals separated by horizontal space.
pub open spec fn spec_dec_list(s: Seq<char>) -> SpecStep<Seq<Decimal>> {
    match spec_dec(s) {
        SpecStep::Miss => SpecStep::Miss,
        SpecStep::Fatal(f) => SpecStep::Fatal(f),
        SpecStep::Hit(n, c) => if 0 < n <= s.len() {
            match spec_dec_list_tail(s.skip(n)) {
                SpecStep::Fatal(f2) => SpecStep::Fatal(shift_err(f2, n)),
                SpecStep::Hit(m, rest) => SpecStep::Hit(n + m, seq![c] + rest),
                SpecStep::Miss => SpecStep::Miss,
            }
        } else {
            SpecStep::Miss
        },
    }
}

/// The decimal-list tail never reports a recoverable mismatch.
pub proof fn lemma_dec_list_tail_not_miss(s: Seq<char>)
    ensures
        !(spec_dec_list_tail(s) is Miss),
    decreases s.len(),
{
    match spec_hspace1(s) {
        Option::None => {},
        Option::Some(h) => {
            match spec_dec(s.skip(h)) {
                SpecStep::Hit(n, c) => {
                    if 0 < h + n <= s.len() {
                        lemma_dec_list_tail_not_miss(s.skip(h + n));
                    }
                },
                _ => {},
            }
        },
    }
}

/// A decimal-list tail hit consumes at most the whole suffix.
pub proof fn lemma_dec_list_tail_len(s: Seq<char>)
    ensures
        spec_dec_list_tail(s) matches SpecStep::Hit(m, _) ==> 0 <= m <= s.len(),
    decreases s.len(),
{
    match spec_hspace1(s) {
        Option::None => {},
        Option::Some(h) => {
            match spec_dec(s.skip(h)) {
                SpecStep::Hit(n, c) => {
                    if 0 < h + n <= s.len() {
                        lemma_dec_list_tail_len(s.skip(h + n));
                    }
                },
                _ => {},
            }
        },
    }
}

/// A decimal-list hit consumes at least one character and at most the
/// whole suffix.
pub proof fn lemma_dec_list_len(s: Seq<char>)
    ensures
        spec_dec_list(s) matches SpecStep::Hit(n, _) ==> 1 <= n <= s.len(),
{
    crate::lex::lemma_spec_dec_len(s);
    match spec_dec(s) {
        SpecStep::Hit(n, c) => {
            if 0 < n <= s.len() {
                lemma_dec_list_tail_len(s.skip(n));
            }
        },
        _ => {},
    }
}

/// Executable twin of [`spec_dec_list`].
pub fn dec_list_tok(v: &Vec<char>, pos: usize) -> (r: Step<Vec<Decimal>>)
    requires
        pos <= v@.len(),
    ensures
        step_ok(r, spec_dec_list(v@.skip(pos as int)), pos as int),
        r matches Step::Hit(n, _) ==> pos + n <= v@.len(),
{
    let ghost s0 = v@.skip(pos as int);
    let vlen = v.len();
    let first = match dec_tok(v, pos) {
        Step::Miss => {
            return Step::Miss;
        },
        Step::Fatal(e) => {
            return Step::Fatal(e);
        },
        Step::Hit(n, c) => (n, c),
    };
    let ghost c0 = first.1;
    proof {
        crate::lex::lemma_spec_dec_len(s0);
    }
    let mut cur: usize = pos + first.0;
    let mut acc: Vec<Decimal> = Vec::new();
    acc.push(first.1);
    proof {
        lemma_dec_list_tail_not_miss(s0.skip(cur - pos));
        lemma_dec_list_tail_len(s0.skip(cur - pos));
        assert(v@.skip(cur as int) == s0.skip(cur - pos));
        assert(acc@ =~= seq![c0]);
    }
    loop
        invariant
            vlen == v@.len(),
            pos <= cur <= v@.len(),
            s0 == v@.skip(pos as int),
            acc@.len() >= 1,
            ({
                match spec_dec_list_tail(v@.skip(cur as int)) {
                    SpecStep::Hit(m, rest) => spec_dec_list(s0) == SpecStep::Hit(
                        cur - pos + m,
                        acc@ + rest,
                    ),
                    SpecStep::Fatal(f) => spec_dec_list(s0) == SpecStep::<Seq<Decimal>>::Fatal(
                        shift_err(f, cur - pos),
                    ),
                    SpecStep::Miss => false,
                }
            }),
        decreases v@.len() - cur,
    {
        let ghost scur = v@.skip(cur as int);
        proof {
            lemma_dec_list_tail_not_miss(scur);
        }
        let h = match hspace1(v, cur) {
            Option::None => {
                return Step::Hit(cur - pos, acc);
            },
            Option::Some(h) => h,
        };
        proof {
            assert(v@.skip((cur + h) as int) == scur.skip(h as int));
        }
        match dec_tok(v, cur + h) {
            Step::Miss => {
                return Step::Hit(cur - pos, acc);
            },
            Step::Fatal(e) => {
                return Step::Fatal(e);
            },
            Step::Hit(n, c) => {
                let ghost prev = acc@;
                proof {
                    crate::lex::lemma_spec_dec_len(scur.skip(h as int));
                    lemma_dec_list_tail_not_miss(scur.skip(h + n));
                    lemma_dec_list_tail_len(scur.skip(h + n));
                    assert(v@.skip((cur + h + n) as int) == scur.skip(h + n));
                }
                acc.push(c);
                proof {
                    let scur2 = scur.skip(h + n);
                    match spec_dec_list_tail(scur2) {
                        SpecStep::Hit(m2, rest2) => {
                            assert(spec_dec_list_tail(scur) == SpecStep::Hit(
                                h + n + m2,
                                seq![c] + rest2,
                            ));
                            assert((prev + (seq![c] + rest2)) =~= (acc@ + rest2));
                        },
                        SpecStep::Fatal(f2) => {
                            assert(spec_dec_list_tail(scur) == SpecStep::<Seq<Decimal>>::Fatal(
                                shift_err(f2, h + n),
                            ));
                        },
                        SpecStep::Miss => {},
                    }
                }
                cur = cur + h + n;
            },
        }
    }
}
/// The value of kind `k` at the head of `s`.
pub open spec fn spec_value(k: ValueKind, s: Seq<char>) -> SpecStep<ValueV> {
    match k {
        ValueKind::KStr => match spec_string(s) {
            SpecStep::Miss => SpecStep::Miss,
            SpecStep::Fatal(f) => SpecStep::Fatal(f),
            SpecStep::Hit(n, c) => SpecStep::Hit(n, ValueV::VStr(c)),
        },
        ValueKind::KStrList => match spec_str_list(s) {
            SpecStep::Miss => SpecStep::Miss,
            SpecStep::Fatal(f) => SpecStep::Fatal(f),
            SpecStep::Hit(n, c) => SpecStep::Hit(n, ValueV::VStrList(c)),
        },
        ValueKind::KU64 => match spec_u64(s) {
            SpecStep::Miss => SpecStep::Miss,
            SpecStep::Fatal(f) => SpecStep::Fatal(f),
            SpecStep::Hit(n, c) => SpecStep::Hit(n, ValueV::VU64(c)),
        },
        ValueKind::KI64 => match spec_i64(s) {
            SpecStep::Miss => SpecStep::Miss,
            SpecStep::Fatal(f) => SpecStep::Fatal(f),
            SpecStep::Hit(n, c) => SpecStep::Hit(n, ValueV::VI64(c)),
        },
        ValueKind::KDec => match spec_dec(s) {
            SpecStep::Miss => SpecStep::Miss,
            SpecStep::Fatal(f) => SpecStep::Fatal(f),
            SpecStep::Hit(n, c) => SpecStep::Hit(n, ValueV::VDec(c)),
        },
        ValueKind::KDecList => match spec_dec_list(s) {
            SpecStep::Miss => SpecStep::Miss,
            SpecStep::Fatal(f) => SpecStep::Fatal(f),
            SpecStep::Hit(n, c) => SpecStep::Hit(n, ValueV::VDecList(c)),
        },
        ValueKind::KDate => match crate::lex::spec_date(s) {
            SpecStep::Miss => SpecStep::Miss,
            SpecStep::Fatal(f) => SpecStep::Fatal(f),
            SpecStep::Hit(n, c) => SpecStep::Hit(n, ValueV::VDate(c)),
        },
        ValueKind::KStrU64 => match spec_string(s) {
            SpecStep::Miss => SpecStep::Miss,
            SpecStep::Fatal(f) => SpecStep::Fatal(f),
            SpecStep::Hit(n1, c) => match spec_hspace1(s.skip(n1)) {
                Option::None => SpecStep::Miss,
                Option::Some(h) => match spec_u64(s.skip(n1 + h)) {
                    SpecStep::Miss => SpecStep::Miss,
                    SpecStep::Fatal(f) => SpecStep::Fatal(shift_err(f, n1 + h)),
                    SpecStep::Hit(n2, x) => SpecStep::Hit(n1 + h + n2, ValueV::VStrU64(c, x)),
                },
            },
        },
        ValueKind::KStrU64Dec => match spec_string(s) {
            SpecStep::Miss => SpecStep::Miss,
            SpecStep::Fatal(f) => SpecStep::Fatal(f),
            SpecStep::Hit(n1, c) => match spec_hspace1(s.skip(n1)) {
                Option::None => SpecStep::Miss,
                Option::Some(h1) => match spec_u64(s.skip(n1 + h1)) {
                    SpecStep::Miss => SpecStep::Miss,
                    SpecStep::Fatal(f) => SpecStep::Fatal(shift_err(f, n1 + h1)),
                    SpecStep::Hit(n2, x) => match spec_hspace1(s.skip(n1 + h1 + n2)) {
                        Option::None => SpecStep::Miss,
                        Option::Some(h2) => match spec_dec(s.skip(n1 + h1 + n2 + h2)) {
                            SpecStep::Miss => SpecStep::Miss,
                            SpecStep::Fatal(f) => SpecStep::Fatal(
                                shift_err(f, n1 + h1 + n2 + h2),
                            ),
                            SpecStep::Hit(n3, d) => SpecStep::Hit(
                                n1 + h1 + n2 + h2 + n3,
                                ValueV::VStrU64Dec(c, x, d),
                            ),
                        },
                    },
                },
            },
        },
        ValueKind::KStrOptInt => match spec_string(s) {
            SpecStep::Miss => SpecStep::Miss,
            SpecStep::Fatal(f) => SpecStep::Fatal(f),
            SpecStep::Hit(n1, c) => match spec_hspace1(s.skip(n1)) {
                Option::None => SpecStep::Hit(n1, ValueV::VStrOptInt(c, Option::None)),
                Option::Some(h) => match spec_i64(s.skip(n1 + h)) {
                    SpecStep::Miss => SpecStep::Hit(n1, ValueV::VStrOptInt(c, Option::None)),
                    SpecStep::Fatal(f) => SpecStep::Fatal(shift_err(f, n1 + h)),
                    SpecStep::Hit(n2, x) => SpecStep::Hit(
                        n1 + h + n2,
                        ValueV::VStrOptInt(c, Option::Some(x)),
                    ),
                },
            },
        },
        ValueKind::KDecPair => match spec_dec(s) {
            SpecStep::Miss => SpecStep::Miss,
            SpecStep::Fatal(f) => SpecStep::Fatal(f),
            SpecStep::Hit(n1, x) => match spec_hspace1(s.skip(n1)) {
                Option::None => SpecStep::Miss,
                Option::Some(h) => match spec_dec(s.skip(n1 + h)) {
                    SpecStep::Miss => SpecStep::Miss,
                    SpecStep::Fatal(f) => SpecStep::Fatal(shift_err(f, n1 + h)),
                    SpecStep::Hit(n2, y) => SpecStep::Hit(n1 + h + n2, ValueV::VDecPair(x, y)),
                },
            },
        },
        ValueKind::KFlag => SpecStep::Miss,
    }
}

/// A value hit consumes at least one character and at most the whole
/// suffix.
pub proof fn lemma_spec_value_len(k: ValueKind, s: Seq<char>)
    ensures
        spec_value(k, s) matches SpecStep::Hit(n, _) ==> 1 <= n <= s.len(),
{
    crate::lex::lemma_spec_string_len(s);
    crate::lex::lemma_spec_u64_len(s);
    crate::lex::lemma_spec_i64_len(s);
    crate::lex::lemma_spec_dec_len(s);
    crate::lex::lemma_spec_date_len(s);
    lemma_str_list_len(s);
    lemma_dec_list_len(s);
    match spec_string(s) {
        SpecStep::Hit(n1, c) => {
            crate::lex::lemma_run_le_len(s.skip(n1));
            match spec_hspace1(s.skip(n1)) {
                Option::Some(h1) => {
                    crate::lex::lemma_spec_u64_len(s.skip(n1 + h1));
                    crate::lex::lemma_spec_i64_len(s.skip(n1 + h1));
                    match spec_u64(s.skip(n1 + h1)) {
                        SpecStep::Hit(n2, _) => {
                            crate::lex::lemma_run_le_len(s.skip(n1 + h1 + n2));
                            match spec_hspace1(s.skip(n1 + h1 + n2)) {
                                Option::Some(h2) => {
                                    crate::lex::lemma_spec_dec_len(s.skip(n1 + h1 + n2 + h2));
                                },
                                Option::None => {},
                            }
                        },
                        _ => {},
                    }
                },
                Option::None => {},
            }
        },
        _ => {},
    }
    match spec_dec(s) {
        SpecStep::Hit(n1, _) => {
            crate::lex::lemma_run_le_len(s.skip(n1));
            match spec_hspace1(s.skip(n1)) {
                Option::Some(h) => {
                    crate::lex::lemma_spec_dec_len(s.skip(n1 + h));
                },
                Option::None => {},
            }
        },
        _ => {},
    }
}


/// Executable twin of the string-and-integer arm of [`spec_value`].
#[verifier::rlimit(100)]
#[verifier::spinoff_prover]
fn str_u64_tok(src: &str, v: &Vec<char>, pos: usize) -> (r: Step<Value>)
    requires
        v@ == src@,
        pos <= v@.len(),
    ensures
        step_ok(r, spec_value(ValueKind::KStrU64, v@.skip(pos as int)), pos as int),
        r matches Step::Hit(n, _) ==> pos + n <= v@.len(),
{
    let ghost s = v@.skip(pos as int);
    let vlen = v.len();
    match string_tok(src, v, pos) {
        Step::Miss => Step::Miss,
        Step::Fatal(e) => Step::Fatal(e),
        Step::Hit(n1, c) => {
            proof {
                assert(v@.skip((pos + n1) as int) == s.skip(n1 as int));
            }
            match hspace1(v, pos + n1) {
                Option::None => Step::Miss,
                Option::Some(h) => {
                    proof {
                        assert(v@.skip((pos + n1 + h) as int) == s.skip(n1 + h));
                    }
                    match u64_tok(v, pos + n1 + h) {
                        Step::Miss => Step::Miss,
                        Step::Fatal(e) => Step::Fatal(e),
                        Step::Hit(n2, x) => Step::Hit(n1 + h + n2, Value::VStrU64(c, x)),
                    }
                },
            }
        },
    }
}

/// Executable twin of the string, integer and decimal arm of
/// [`spec_value`].
#[verifier::rlimit(100)]
#[verifier::spinoff_prover]
fn str_u64_dec_tok(src: &str, v: &Vec<char>, pos: usize) -> (r: Step<Value>)
    requires
        v@ == src@,
        pos <= v@.len(),
    ensures
        step_ok(r, spec_value(ValueKind::KStrU64Dec, v@.skip(pos as int)), pos as int),
        r matches Step::Hit(n, _) ==> pos + n <= v@.len(),
{
    let ghost s = v@.skip(pos as int);
    let vlen = v.len();
    match string_tok(src, v, pos) {
        Step::Miss => Step::Miss,
        Step::Fatal(e) => Step::Fatal(e),
        Step::Hit(n1, c) => {
            proof {
                assert(v@.skip((pos + n1) as int) == s.skip(n1 as int));
            }
            match hspace1(v, pos + n1) {
                Option::None => Step::Miss,
                Option::Some(h1) => {
                    proof {
                        assert(v@.skip((pos + n1 + h1) as int) == s.skip(n1 + h1));
                    }
                    match u64_tok(v, pos + n1 + h1) {
                        Step::Miss => Step::Miss,
                        Step::Fatal(e) => Step::Fatal(e),
                        Step::Hit(n2, x) => {
                            proof {
                                assert(v@.skip((pos + n1 + h1 + n2) as int) == s.skip(
                                    n1 + h1 + n2,
                                ));
                            }
                            match hspace1(v, pos + n1 + h1 + n2) {
                                Option::None => Step::Miss,
                                Option::Some(h2) => {
                                    proof {
                                        assert(v@.skip((pos + n1 + h1 + n2 + h2) as int)
                                            == s.skip(n1 + h1 + n2 + h2));
                                    }
                                    match dec_tok(v, pos + n1 + h1 + n2 + h2) {
                                        Step::Miss => Step::Miss,
                                        Step::Fatal(e) => Step::Fatal(e),
                                        Step::Hit(n3, d) => Step::Hit(
                                            n1 + h1 + n2 + h2 + n3,
                                            Value::VStrU64Dec(c, x, d),
                                        ),
                                    }
                                },
                            }
                        },
                    }
                },
            }
        },
    }
}

/// Executable twin of the string-and-optional-integer arm of
/// [`spec_value`].
#[verifier::rlimit(100)]
#[verifier::spinoff_prover]
fn str_opt_int_tok(src: &str, v: &Vec<char>, pos: usize) -> (r: Step<Value>)
    requires
        v@ == src@,
        pos <= v@.len(),
    ensures
        step_ok(r, spec_value(ValueKind::KStrOptInt, v@.skip(pos as int)), pos as int),
        r matches Step::Hit(n, _) ==> pos + n <= v@.len(),
{
    let ghost s = v@.skip(pos as int);
    let vlen = v.len();
    match string_tok(src, v, pos) {
        Step::Miss => Step::Miss,
        Step::Fatal(e) => Step::Fatal(e),
        Step::Hit(n1, c) => {
            proof {
                assert(v@.skip((pos + n1) as int) == s.skip(n1 as int));
            }
            match hspace1(v, pos + n1) {
                Option::None => Step::Hit(n1, Value::VStrOptInt(c, Option::None)),
                Option::Some(h) => {
                    proof {
                        assert(v@.skip((pos + n1 + h) as int) == s.skip(n1 + h));
                    }
                    match i64_tok(v, pos + n1 + h) {
                        Step::Miss => Step::Hit(n1, Value::VStrOptInt(c, Option::None)),
                        Step::Fatal(e) => Step::Fatal(e),
                        Step::Hit(n2, x) => Step::Hit(
                            n1 + h + n2,
                            Value::VStrOptInt(c, Option::Some(x)),
                        ),
                    }
                },
            }
        },
    }
}

/// Executable twin of the decimal-pair arm of [`spec_value`].
#[verifier::rlimit(100)]
#[verifier::spinoff_prover]
fn dec_pair_tok(v: &Vec<char>, pos: usize) -> (r: Step<Value>)
    requires
        pos <= v@.len(),
    ensures
        step_ok(r, spec_value(ValueKind::KDecPair, v@.skip(pos as int)), pos as int),
        r matches Step::Hit(n, _) ==> pos + n <= v@.len(),
{
    let ghost s = v@.skip(pos as int);
    let vlen = v.len();
    match dec_tok(v, pos) {
        Step::Miss => Step::Miss,
        Step::Fatal(e) => Step::Fatal(e),
        Step::Hit(n1, x) => {
            proof {
                assert(v@.skip((pos + n1) as int) == s.skip(n1 as int));
            }
            match hspace1(v, pos + n1) {
                Option::None => Step::Miss,
                Option::Some(h) => {
                    proof {
                        assert(v@.skip((pos + n1 + h) as int) == s.skip(n1 + h));
                    }
                    match dec_tok(v, pos + n1 + h) {
                        Step::Miss => Step::Miss,
                        Step::Fatal(e) => Step::Fatal(e),
                        Step::Hit(n2, y) => Step::Hit(n1 + h + n2, Value::VDecPair(x, y)),
                    }
                },
            }
        },
    }
}

/// Executable twin of [`spec_value`].
#[verifier::rlimit(100)]
#[verifier::spinoff_prover]
pub fn value_tok(src: &str, v: &Vec<char>, pos: usize, k: ValueKind) -> (r: Step<Value>)
    requires
        v@ == src@,
        pos <= v@.len(),
    ensures
        step_ok(r, spec_value(k, v@.skip(pos as int)), pos as int),
        r matches Step::Hit(n, _) ==> pos + n <= v@.len(),
{
    let ghost s = v@.skip(pos as int);
    let vlen = v.len();
    match k {
        ValueKind::KStr => match string_tok(src, v, pos) {
            Step::Miss => Step::Miss,
            Step::Fatal(e) => Step::Fatal(e),
            Step::Hit(n, c) => Step::Hit(n, Value::VStr(c)),
        },
        ValueKind::KStrList => match str_list_tok(src, v, pos) {
            Step::Miss => Step::Miss,
            Step::Fatal(e) => Step::Fatal(e),
            Step::Hit(n, c) => Step::Hit(n, Value::VStrList(c)),
        },
        ValueKind::KU64 => match u64_tok(v, pos) {
            Step::Miss => Step::Miss,
            Step::Fatal(e) => Step::Fatal(e),
            Step::Hit(n, c) => Step::Hit(n, Value::VU64(c)),
        },
        ValueKind::KI64 => match i64_tok(v, pos) {
            Step::Miss => Step::Miss,
            Step::Fatal(e) => Step::Fatal(e),
            Step::Hit(n, c) => Step::Hit(n, Value::VI64(c)),
        },
        ValueKind::KDec => match dec_tok(v, pos) {
            Step::Miss => Step::Miss,
            Step::Fatal(e) => Step::Fatal(e),
            Step::Hit(n, c) => Step::Hit(n, Value::VDec(c)),
        },
        ValueKind::KDecList => match dec_list_tok(v, pos) {
            Step::Miss => Step::Miss,
            Step::Fatal(e) => Step::Fatal(e),
            Step::Hit(n, c) => Step::Hit(n, Value::VDecList(c)),
        },
        ValueKind::KDate => match crate::lex::date_tok(v, pos) {
            Step::Miss => Step::Miss,
            Step::Fatal(e) => Step::Fatal(e),
            Step::Hit(n, c) => Step::Hit(n, Value::VDate(c)),
        },
        ValueKind::KStrU64 => str_u64_tok(src, v, pos),
        ValueKind::KStrU64Dec => str_u64_dec_tok(src, v, pos),
        ValueKind::KStrOptInt => str_opt_int_tok(src, v, pos),
        ValueKind::KDecPair => dec_pair_tok(v, pos),
        ValueKind::KFlag => Step::Miss,
    }
}

/// Whether the suffix `s` starts with the literal tag text.
pub open spec fn tag_match(s: Seq<char>, tag: Seq<char>) -> bool {
    tag.len() <= s.len() && s.subrange(0, tag.len() as int) == tag
}

/// Executable twin of [`tag_match`]: the tag's length in characters when
/// it matches at `pos`.
pub fn tag_match_tok(v: &Vec<char>, pos: usize, tag: &str) -> (r: Option<usize>)
    requires
        pos <= v@.len(),
    ensures
        match r {
            Option::Some(n) => tag_match(v@.skip(pos as int), tag@) && n == tag@.len() && pos + n
                <= v@.len(),
            Option::None => !tag_match(v@.skip(pos as int), tag@),
        },
{
    let ghost s = v@.skip(pos as int);
    let vlen = v.len();
    let tlen = tag.unicode_len();
    if tlen > v.len() - pos {
        proof {
            assert(!tag_match(s, tag@));
        }
        return Option::None;
    }
    let mut i: usize = 0;
    while i < tlen
        invariant
            0 <= i <= tlen,
            tlen == tag@.len(),
            vlen == v@.len(),
            pos + tlen <= v@.len(),
            s == v@.skip(pos as int),
            forall|j: int| 0 <= j < i ==> s[j] == tag@[j],
        decreases tlen - i,
    {
        let c = tag.get_char(i);
        let d = v[pos + i];
        proof {
            assert(s[i as int] == v@[pos + i]);
        }
        if c != d {
            proof {
                assert(s.subrange(0, tag@.len() as int)[i as int] != tag@[i as int]);
            }
            return Option::None;
        }
        i = i + 1;
    }
    proof {
        assert(s.subrange(0, tag@.len() as int) =~= tag@);
    }
    Option::Some(tlen)
}

/// One attempt of the field descriptor `d` on the suffix `s`: the required
/// indentation, the tag, then (except for a flag) separating space and the
/// value, then a line terminator.  Any missing piece is a recoverable
/// mismatch of the whole line; a fatal error inside the value records the
/// field's tag.
pub open spec fn spec_try_desc(d: Desc, s: Seq<char>) -> SpecStep<ItemV> {
    match spec_indent(s, d.depth as nat) {
        Option::None => SpecStep::Miss,
        Option::Some(k) => {
            if !tag_match(s.skip(k), d.tag@) {
                SpecStep::Miss
            } else {
                let p = k + d.tag@.len();
                if d.kind is KFlag {
                    match spec_line_end(s.skip(p)) {
                        Option::None => SpecStep::Miss,
                        Option::Some(e) => SpecStep::Hit(
                            p + e,
                            ItemV { slot: d.slot as int, value: ValueV::VFlag },
                        ),
                    }
                } else {
                    match spec_hspace1(s.skip(p)) {
                        Option::None => SpecStep::Miss,
                        Option::Some(h) => match spec_value(d.kind, s.skip(p + h)) {
                            SpecStep::Miss => SpecStep::Miss,
                            SpecStep::Fatal(f) => SpecStep::Fatal(
                                shift_err(crate::err::fill_field(f, d.tag@), p + h),
                            ),
                            SpecStep::Hit(n, val) => match spec_line_end(s.skip(p + h + n)) {
                                Option::None => SpecStep::Miss,
                                Option::Some(e) => SpecStep::Hit(
                                    p + h + n + e,
                                    ItemV { slot: d.slot as int, value: val },
                                ),
                            },
                        },
                    }
                }
            }
        },
    }
}

/// A field hit consumes at least one character and at most the whole
/// suffix.
pub proof fn lemma_spec_try_desc_len(d: Desc, s: Seq<char>)
    ensures
        spec_try_desc(d, s) matches SpecStep::Hit(n, _) ==> 1 <= n <= s.len(),
{
    crate::lex::lemma_spec_indent_bounds(s, d.depth as nat);
    match spec_indent(s, d.depth as nat) {
        Option::None => {},
        Option::Some(k) => {
            if tag_match(s.skip(k), d.tag@) {
                let p = k + d.tag@.len();
                crate::lex::lemma_run_le_len(s.skip(p));
                match spec_hspace1(s.skip(p)) {
                    Option::None => {},
                    Option::Some(h) => {
                        lemma_spec_value_len(d.kind, s.skip(p + h));
                    },
                }
            }
        },
    }
}

/// Executable twin of [`spec_try_desc`].
pub fn try_desc(src: &str, v: &Vec<char>, pos: usize, d: &Desc) -> (r: Step<Item>)
    requires
        v@ == src@,
        pos <= v@.len(),
    ensures
        step_ok(r, spec_try_desc(*d, v@.skip(pos as int)), pos as int),
        r matches Step::Hit(n, _) ==> pos + n <= v@.len(),
{
    let ghost s = v@.skip(pos as int);
    let vlen = v.len();
    let k = match indent(v, pos, d.depth) {
        Option::None => {
            return Step::Miss;
        },
        Option::Some(k) => k,
    };
    proof {
        assert(v@.skip((pos + k) as int) == s.skip(k as int));
    }
    let t = match tag_match_tok(v, pos + k, d.tag) {
        Option::None => {
            return Step::Miss;
        },
        Option::Some(t) => t,
    };
    let p = k + t;
    proof {
        assert(v@.skip((pos + p) as int) == s.skip(p as int));
    }
    if matches!(d.kind, ValueKind::KFlag) {
        match line_end(v, pos + p) {
            Option::None => Step::Miss,
            Option::Some(e) => Step::Hit(p + e, Item { slot: d.slot, value: Value::VFlag }),
        }
    } else {
        proof {
            assert(!(d.kind is KFlag));
        }
        let h = match hspace1(v, pos + p) {
            Option::None => {
                return Step::Miss;
            },
            Option::Some(h) => h,
        };
        proof {
            assert(v@.skip((pos + p + h) as int) == s.skip(p + h));
        }
        match value_tok(src, v, pos + p + h, d.kind) {
            Step::Miss => Step::Miss,
            Step::Fatal(e) => Step::Fatal(e.with_field(d.tag)),
            Step::Hit(n, val) => {
                proof {
                    assert(v@.skip((pos + p + h + n) as int) == s.skip(p + h + n));
                }
                match line_end(v, pos + p + h + n) {
                    Option::None => Step::Miss,
                    Option::Some(e) => Step::Hit(p + h + n + e, Item { slot: d.slot, value: val }),
                }
            },
        }
    }
}

/// The first descriptor from index `i` on that does not miss on `s`,
/// tried in table order.  Every descriptor that fails leaves the position
/// for the next one exactly where it was.
pub open spec fn spec_try_descs(descs: Seq<Desc>, i: int, s: Seq<char>) -> SpecStep<ItemV>
    decreases descs.len() - i,
{
    if i < 0 || i >= descs.len() {
        SpecStep::Miss
    } else {
        match spec_try_desc(descs[i], s) {
            SpecStep::Miss => spec_try_descs(descs, i + 1, s),
            SpecStep::Fatal(f) => SpecStep::Fatal(f),
            SpecStep::Hit(n, item) => SpecStep::Hit(n, item),
        }
    }
}

/// A hit of the descriptor table consumes at least one character and at
/// most the whole suffix.
pub proof fn lemma_spec_try_descs_len(descs: Seq<Desc>, i: int, s: Seq<char>)
    ensures
        spec_try_descs(descs, i, s) matches SpecStep::Hit(n, _) ==> 1 <= n <= s.len(),
    decreases descs.len() - i,
{
    if 0 <= i < descs.len() {
        lemma_spec_try_desc_len(descs[i], s);
        match spec_try_desc(descs[i], s) {
            SpecStep::Miss => {
                lemma_spec_try_descs_len(descs, i + 1, s);
            },
            _ => {},
        }
    }
}

/// Executable twin of [`spec_try_descs`].
pub fn try_descs(src: &str, v: &Vec<char>, pos: usize, descs: &Vec<Desc>) -> (r: Step<Item>)
    requires
        v@ == src@,
        pos <= v@.len(),
    ensures
        step_ok(r, spec_try_descs(descs@, 0, v@.skip(pos as int)), pos as int),
        r matches Step::Hit(n, _) ==> pos + n <= v@.len(),
{
    let ghost s = v@.skip(pos as int);
    let mut i: usize = 0;
    while i < descs.len()
        invariant
            v@ == src@,
            pos <= v@.len(),
            s == v@.skip(pos as int),
            0 <= i <= descs@.len(),
            spec_try_descs(descs@, 0, s) == spec_try_descs(descs@, i as int, s),
        decreases descs@.len() - i,
    {
        match try_desc(src, v, pos, &descs[i]) {
            Step::Miss => {
                i = i + 1;
            },
            Step::Fatal(e) => {
                return Step::Fatal(e);
            },
            Step::Hit(n, item) => {
                return Step::Hit(n, item);
            },
        }
    }
    Step::Miss
}

/// The outcome of one engine pass: the characters consumed and the items
/// collected, or a fatal error.
pub enum FieldsRes {
    Fatal(ErrV),
    Items(int, Seq<ItemV>),
}

/// One engine pass: the descriptor table is offered the remaining input
/// repeatedly, in table order, until no descriptor matches; the parsed
/// items accumulate in source order.
pub open spec fn spec_parse_fields(descs: Seq<Desc>, s: Seq<char>) -> FieldsRes
    decreases s.len(),
{
    match spec_try_descs(descs, 0, s) {
        SpecStep::Miss => FieldsRes::Items(0, Seq::empty()),
        SpecStep::Fatal(f) => FieldsRes::Fatal(f),
        SpecStep::Hit(n, item) => if 1 <= n <= s.len() {
            match spec_parse_fields(descs, s.skip(n)) {
                FieldsRes::Fatal(f) => FieldsRes::Fatal(shift_err(f, n)),
                FieldsRes::Items(m, items) => FieldsRes::Items(n + m, seq![item] + items),
            }
        } else {
            FieldsRes::Items(0, Seq::empty())
        },
    }
}

/// An engine pass consumes at most the whole suffix.
pub proof fn lemma_spec_parse_fields_len(descs: Seq<Desc>, s: Seq<char>)
    ensures
        spec_parse_fields(descs, s) matches FieldsRes::Items(n, _) ==> 0 <= n <= s.len(),
    decreases s.len(),
{
    lemma_spec_try_descs_len(descs, 0, s);
    match spec_try_descs(descs, 0, s) {
        SpecStep::Hit(n, item) => {
            if 1 <= n <= s.len() {
                lemma_spec_parse_fields_len(descs, s.skip(n));
            }
        },
        _ => {},
    }
}

/// Executable twin of [`spec_parse_fields`]: the number of characters
/// consumed and the items parsed, or the fatal error.
#[verifier::rlimit(100)]
#[verifier::spinoff_prover]
pub fn parse_fields(src: &str, v: &Vec<char>, pos: usize, descs: &Vec<Desc>) -> (r: Result<
    (usize, Vec<Item>),
    StructuredError,
>)
    requires
        v@ == src@,
        pos <= v@.len(),
    ensures
        match r {
            Result::Ok((n, items)) => spec_parse_fields(descs@, v@.skip(pos as int))
                == FieldsRes::Items(n as int, vitems(items@)) && pos + n <= v@.len(),
            Result::Err(e) => spec_parse_fields(descs@, v@.skip(pos as int)) matches
                FieldsRes::Fatal(f) && crate::err::err_ok(e, f, pos as int),
        },
{
    let ghost s0 = v@.skip(pos as int);
    let vlen = v.len();
    let mut cur: usize = pos;
    let mut items: Vec<Item> = Vec::new();
    loop
        invariant
            v@ == src@,
            vlen == v@.len(),
            pos <= cur <= v@.len(),
            s0 == v@.skip(pos as int),
            ({
                match spec_parse_fields(descs@, v@.skip(cur as int)) {
                    FieldsRes::Items(m, rest) => spec_parse_fields(descs@, s0) == FieldsRes::Items(
                        cur - pos + m,
                        vitems(items@) + rest,
                    ),
                    FieldsRes::Fatal(f) => spec_parse_fields(descs@, s0) == FieldsRes::Fatal(
                        shift_err(f, cur - pos),
                    ),
                }
            }),
        decreases v@.len() - cur,
    {
        let ghost scur = v@.skip(cur as int);
        match try_descs(src, v, cur, descs) {
            Step::Miss => {
                proof {
                    assert(spec_parse_fields(descs@, scur) == FieldsRes::Items(
                        0,
                        Seq::<ItemV>::empty(),
                    ));
                    assert((vitems(items@) + Seq::<ItemV>::empty()) =~= vitems(items@));
                }
                return Result::Ok((cur - pos, items));
            },
            Step::Fatal(e) => {
                return Result::Err(e);
            },
            Step::Hit(n, item) => {
                let ghost itv = item@;
                let ghost prev = vitems(items@);
                proof {
                    lemma_spec_try_descs_len(descs@, 0, scur);
                    assert(v@.skip((cur + n) as int) == scur.skip(n as int));
                }
                items.push(item);
                proof {
                    assert(vitems(items@) =~= prev.push(itv));
                    let scur2 = scur.skip(n as int);
                    match spec_parse_fields(descs@, scur2) {
                        FieldsRes::Items(m2, rest2) => {
                            assert(spec_parse_fields(descs@, scur) == FieldsRes::Items(
                                n + m2,
                                seq![itv] + rest2,
                            ));
                            assert((prev + (seq![itv] + rest2)) =~= (vitems(items@) + rest2));
                        },
                        FieldsRes::Fatal(f2) => {
                            assert(spec_parse_fields(descs@, scur) == FieldsRes::Fatal(
                                shift_err(f2, n as int),
                            ));
                        },
                    }
                }
                cur = cur + n;
            },
        }
    }
}

} // verus!
