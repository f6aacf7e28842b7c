//! The player start record and its account and mortgage sub-blocks.
//!
//! A start record has no name on its header line.  All of its fields are
//! mandatory: the start system, planet, date and set, and an account
//! block, which in turn requires credits, a score and a mortgage block,
//! whose principal, interest and term are mandatory as well.

use vstd::prelude::*;

use crate::err::{
    err_ok, push_ctx, shift_err, step_ok, ErrV, RecordKind, SpecStep, Step, StructuredError,
};
use crate::fields::{parse_fields, spec_parse_fields, Desc, FieldsRes, ItemV, ValueKind};
use crate::records::common::{
    conv_fault, conv_fault_err, missing_field, missing_field_err, spec_bare_header,
    spec_str_header, bare_header_tok, str_header_tok,
};
use crate::slots::{
    opt_date_slot, opt_dec_slot, opt_str_slot, opt_u64_slot, take_date, take_dec, take_str,
    take_u64,
};
use crate::types::{Account, Mortgage, Start, StartV};

verus! {

/// The leaf-field table of a mortgage block.
pub open spec fn mortgage_descs() -> Seq<Desc> {
    seq![
        Desc { depth: 3, tag: "principal", kind: ValueKind::KU64, slot: 0 },
        Desc { depth: 3, tag: "interest", kind: ValueKind::KDec, slot: 1 },
        Desc { depth: 3, tag: "term", kind: ValueKind::KU64, slot: 2 },
    ]
}

/// Builds the executable [`mortgage_descs`] table.
fn mortgage_desc_vec() -> (r: Vec<Desc>)
    ensures
        r@ == mortgage_descs(),
{
    let mut r: Vec<Desc> = Vec::new();
    r.push(Desc { depth: 3, tag: "principal", kind: ValueKind::KU64, slot: 0 });
    r.push(Desc { depth: 3, tag: "interest", kind: ValueKind::KDec, slot: 1 });
    r.push(Desc { depth: 3, tag: "term", kind: ValueKind::KU64, slot: 2 });
    proof {
        assert(r@ =~= mortgage_descs());
    }
    r
}

/// A mortgage block: its header names the mortgage kind (the name is not
/// part of the record), then the mandatory principal, interest and term
/// fields at depth three, in any order.
pub open spec fn spec_mortgage(s: Seq<char>) -> SpecStep<Mortgage> {
    match spec_str_header(2, "mortgage"@, s) {
        SpecStep::Miss => SpecStep::Miss,
        SpecStep::Fatal(f) => SpecStep::Fatal(push_ctx(f, RecordKind::Mortgage)),
        SpecStep::Hit(nh, _name) => if 1 <= nh <= s.len() {
            match spec_parse_fields(mortgage_descs(), s.skip(nh)) {
                FieldsRes::Fatal(f) => SpecStep::Fatal(
                    push_ctx(shift_err(f, nh), RecordKind::Mortgage),
                ),
                FieldsRes::Items(nf, items) => {
                    let end = nh + nf;
                    match opt_u64_slot(items, 0) {
                        Option::None => SpecStep::Fatal(
                            push_ctx(missing_field("principal"@, end), RecordKind::Mortgage),
                        ),
                        Option::Some(principal) => match opt_dec_slot(items, 1) {
                            Option::None => SpecStep::Fatal(
                                push_ctx(missing_field("interest"@, end), RecordKind::Mortgage),
                            ),
                            Option::Some(interest) => match opt_u64_slot(items, 2) {
                                Option::None => SpecStep::Fatal(
                                    push_ctx(missing_field("term"@, end), RecordKind::Mortgage),
                                ),
                                Option::Some(term) => if term > u16::MAX {
                                    SpecStep::Fatal(
                                        push_ctx(conv_fault("term"@, end), RecordKind::Mortgage),
                                    )
                                } else {
                                    SpecStep::Hit(
                                        end,
                                        Mortgage {
                                            principal: principal,
                                            interest: interest,
                                            term: term as u16,
                                        },
                                    )
                                },
                            },
                        },
                    }
                },
            }
        } else {
            SpecStep::Miss
        },
    }
}

/// A mortgage hit consumes at least one character and at most the whole
/// suffix.
pub proof fn lemma_spec_mortgage_len(s: Seq<char>)
    ensures
        spec_mortgage(s) matches SpecStep::Hit(n, _) ==> 1 <= n <= s.len(),
{
    reveal(spec_mortgage);
    crate::records::common::lemma_spec_str_header_len(2, "mortgage"@, s);
    match spec_str_header(2, "mortgage"@, s) {
        SpecStep::Hit(nh, _) => {
            if 1 <= nh <= s.len() {
                crate::fields::lemma_spec_parse_fields_len(mortgage_descs(), s.skip(nh));
            }
        },
        _ => {},
    }
}

/// Executable twin of [`spec_mortgage`].
#[verifier::rlimit(100)]
#[verifier::spinoff_prover]
pub fn parse_mortgage(src: &str, v: &Vec<char>, pos: usize) -> (r: Step<Mortgage>)
    requires
        v@ == src@,
        pos <= v@.len(),
    ensures
        step_ok(r, spec_mortgage(v@.skip(pos as int)), pos as int),
        r matches Step::Hit(n, _) ==> pos + n <= v@.len(),
{
    proof {
        reveal(spec_mortgage);
    }
    let ghost s = v@.skip(pos as int);
    let vlen = v.len();
    let (nh, _name) = match str_header_tok(src, v, pos, 2, "mortgage") {
        Step::Miss => {
            return Step::Miss;
        },
        Step::Fatal(e) => {
            return Step::Fatal(e.with_ctx(RecordKind::Mortgage));
        },
        Step::Hit(nh, name) => (nh, name),
    };
    proof {
        crate::records::common::lemma_spec_str_header_len(2, "mortgage"@, s);
        assert(v@.skip((pos + nh) as int) == s.skip(nh as int));
    }
    let descs = mortgage_desc_vec();
    let (nf, items) = match parse_fields(src, v, pos + nh, &descs) {
        Result::Err(e) => {
            return Step::Fatal(e.with_ctx(RecordKind::Mortgage));
        },
        Result::Ok(x) => x,
    };
    let end = pos + nh + nf;
    let principal = match take_u64(&items, 0) {
        Option::None => {
            return Step::Fatal(missing_field_err("principal", end).with_ctx(RecordKind::Mortgage));
        },
        Option::Some(x) => x,
    };
    let interest = match take_dec(&items, 1) {
        Option::None => {
            return Step::Fatal(missing_field_err("interest", end).with_ctx(RecordKind::Mortgage));
        },
        Option::Some(x) => x,
    };
    let term = match take_u64(&items, 2) {
        Option::None => {
            return Step::Fatal(missing_field_err("term", end).with_ctx(RecordKind::Mortgage));
        },
        Option::Some(x) => x,
    };
    if term > 0xffffu64 {
        return Step::Fatal(conv_fault_err("term", end).with_ctx(RecordKind::Mortgage));
    }
    Step::Hit(nh + nf, Mortgage { principal: principal, interest: interest, term: term as u16 })
}

/// The leaf-field table of an account block.
pub open spec fn account_descs() -> Seq<Desc> {
    seq![
        Desc { depth: 2, tag: "credits", kind: ValueKind::KU64, slot: 0 },
        Desc { depth: 2, tag: "score", kind: ValueKind::KU64, slot: 1 },
    ]
}

/// Builds the executable [`account_descs`] table.
fn account_desc_vec() -> (r: Vec<Desc>)
    ensures
        r@ == account_descs(),
{
    let mut r: Vec<Desc> = Vec::new();
    r.push(Desc { depth: 2, tag: "credits", kind: ValueKind::KU64, slot: 0 });
    r.push(Desc { depth: 2, tag: "score", kind: ValueKind::KU64, slot: 1 });
    proof {
        assert(r@ =~= account_descs());
    }
    r
}

/// The outcome of an account body: the characters consumed, the leaf
/// items, and the last mortgage block, or a fatal error.
pub enum AccountBody {
    Fatal(ErrV),
    Done(int, Seq<ItemV>, Option<Mortgage>),
}

/// The body of an account block: engine passes over the leaf-field table
/// alternate with mortgage blocks until neither matches.
pub open spec fn spec_account_body(s: Seq<char>) -> AccountBody
    decreases s.len(),
{
    match spec_parse_fields(account_descs(), s) {
        FieldsRes::Fatal(f) => AccountBody::Fatal(f),
        FieldsRes::Items(n1, items1) => if 0 <= n1 <= s.len() {
            match spec_mortgage(s.skip(n1)) {
                SpecStep::Fatal(f) => AccountBody::Fatal(shift_err(f, n1)),
                SpecStep::Miss => AccountBody::Done(n1, items1, Option::None),
                SpecStep::Hit(n2, mg) => if 1 <= n2 <= s.len() - n1 {
                    match spec_account_body(s.skip(n1 + n2)) {
                        AccountBody::Fatal(f) => AccountBody::Fatal(shift_err(f, n1 + n2)),
                        AccountBody::Done(m, items2, mg2) => AccountBody::Done(
                            n1 + n2 + m,
                            items1 + items2,
                            if mg2 is Some {
                                mg2
                            } else {
                                Option::Some(mg)
                            },
                        ),
                    }
                } else {
                    AccountBody::Done(n1, items1, Option::Some(mg))
                },
            }
        } else {
            AccountBody::Done(0, Seq::empty(), Option::None)
        },
    }
}

/// An account body consumes at most the whole suffix.
pub proof fn lemma_spec_account_body_len(s: Seq<char>)
    ensures
        spec_account_body(s) matches AccountBody::Done(n, _, _) ==> 0 <= n <= s.len(),
    decreases s.len(),
{
    crate::fields::lemma_spec_parse_fields_len(account_descs(), s);
    match spec_parse_fields(account_descs(), s) {
        FieldsRes::Items(n1, items1) => {
            if 0 <= n1 <= s.len() {
                lemma_spec_mortgage_len(s.skip(n1));
                match spec_mortgage(s.skip(n1)) {
                    SpecStep::Hit(n2, _) => {
                        if 1 <= n2 <= s.len() - n1 {
                            lemma_spec_account_body_len(s.skip(n1 + n2));
                        }
                    },
                    _ => {},
                }
            }
        },
        _ => {},
    }
}

/// Executable twin of [`spec_account_body`].
#[verifier::rlimit(100)]
#[verifier::spinoff_prover]
fn account_body(src: &str, v: &Vec<char>, start: usize) -> (r: Result<
    (usize, Vec<crate::fields::Item>, Option<Mortgage>),
    StructuredError,
>)
    requires
        v@ == src@,
        start <= v@.len(),
    ensures
        match r {
            Result::Ok((n, items, mg)) => spec_account_body(v@.skip(start as int))
                == AccountBody::Done(n as int, crate::fields::vitems(items@), mg) && start + n
                <= v@.len(),
            Result::Err(e) => spec_account_body(v@.skip(start as int)) matches AccountBody::Fatal(
                f,
            ) && err_ok(e, f, start as int),
        },
{
    let ghost sb = v@.skip(start as int);
    let vlen = v.len();
    let descs = account_desc_vec();
    let mut cur: usize = start;
    let mut items: Vec<crate::fields::Item> = Vec::new();
    let mut mortgage: Option<Mortgage> = Option::None;
    loop
        invariant
            v@ == src@,
            vlen == v@.len(),
            start <= cur <= v@.len(),
            sb == v@.skip(start as int),
            descs@ == account_descs(),
            ({
                match spec_account_body(v@.skip(cur as int)) {
                    AccountBody::Done(m, items2, mg2) => spec_account_body(sb)
                        == AccountBody::Done(
                        cur - start + m,
                        crate::fields::vitems(items@) + items2,
                        if mg2 is Some {
                            mg2
                        } else {
                            mortgage
                        },
                    ),
                    AccountBody::Fatal(f) => spec_account_body(sb) == AccountBody::Fatal(
                        shift_err(f, cur - start),
                    ),
                }
            }),
        decreases v@.len() - cur,
    {
        let ghost scur = v@.skip(cur as int);
        let (n1, mut items1) = match parse_fields(src, v, cur, &descs) {
            Result::Err(e) => {
                return Result::Err(e);
            },
            Result::Ok(x) => x,
        };
        proof {
            crate::fields::lemma_spec_parse_fields_len(account_descs(), scur);
            assert(v@.skip((cur + n1) as int) == scur.skip(n1 as int));
        }
        let ghost prev_items = crate::fields::vitems(items@);
        let ghost new_items = crate::fields::vitems(items1@);
        items.append(&mut items1);
        proof {
            assert(crate::fields::vitems(items@) =~= prev_items + new_items);
        }
        match parse_mortgage(src, v, cur + n1) {
            Step::Fatal(e) => {
                return Result::Err(e);
            },
            Step::Miss => {
                proof {
                    assert((prev_items + new_items) + Seq::<ItemV>::empty() =~= (prev_items
                        + new_items));
                }
                return Result::Ok((cur + n1 - start, items, mortgage));
            },
            Step::Hit(n2, mg) => {
                proof {
                    lemma_spec_mortgage_len(scur.skip(n1 as int));
                    assert(v@.skip((cur + n1 + n2) as int) == scur.skip(n1 + n2));
                    match spec_account_body(scur.skip(n1 + n2)) {
                        AccountBody::Done(m3, items3, _) => {
                            assert((prev_items + (new_items + items3)) =~= ((prev_items
                                + new_items) + items3));
                        },
                        AccountBody::Fatal(_) => {},
                    }
                }
                mortgage = Option::Some(mg);
                cur = cur + n1 + n2;
            },
        }
    }
}

/// An account block: a bare header at depth one, then the mandatory
/// credits, score and mortgage beneath it, in any order.
#[verifier::opaque]
pub open spec fn spec_account(s: Seq<char>) -> SpecStep<Account> {
    match spec_bare_header(1, "account"@, s) {
        SpecStep::Miss => SpecStep::Miss,
        SpecStep::Fatal(f) => SpecStep::Fatal(push_ctx(f, RecordKind::Account)),
        SpecStep::Hit(nh, _) => if 1 <= nh <= s.len() {
            match spec_account_body(s.skip(nh)) {
                AccountBody::Fatal(f) => SpecStep::Fatal(
                    push_ctx(shift_err(f, nh), RecordKind::Account),
                ),
                AccountBody::Done(nb, items, mg) => {
                    let end = nh + nb;
                    match opt_u64_slot(items, 0) {
                        Option::None => SpecStep::Fatal(
                            push_ctx(missing_field("credits"@, end), RecordKind::Account),
                        ),
                        Option::Some(credits) => match opt_u64_slot(items, 1) {
                            Option::None => SpecStep::Fatal(
                                push_ctx(missing_field("score"@, end), RecordKind::Account),
                            ),
                            Option::Some(score) => if score > u32::MAX {
                                SpecStep::Fatal(
                                    push_ctx(conv_fault("score"@, end), RecordKind::Account),
                                )
                            } else {
                                match mg {
                                    Option::None => SpecStep::Fatal(
                                        push_ctx(
                                            missing_field("mortgage"@, end),
                                            RecordKind::Account,
                                        ),
                                    ),
                                    Option::Some(mortgage) => SpecStep::Hit(
                                        end,
                                        Account {
                                            credits: credits,
                                            score: score as u32,
                                            mortgage: mortgage,
                                        },
                                    ),
                                }
                            },
                        },
                    }
                },
            }
        } else {
            SpecStep::Miss
        },
    }
}

/// An account hit consumes at least one character and at most the whole
/// suffix.
pub proof fn lemma_spec_account_len(s: Seq<char>)
    ensures
        spec_account(s) matches SpecStep::Hit(n, _) ==> 1 <= n <= s.len(),
{
    reveal(spec_account);
    crate::records::common::lemma_spec_bare_header_len(1, "account"@, s);
    match spec_bare_header(1, "account"@, s) {
        SpecStep::Hit(nh, _) => {
            if 1 <= nh <= s.len() {
                lemma_spec_account_body_len(s.skip(nh));
            }
        },
        _ => {},
    }
}

/// Executable twin of [`spec_account`].
#[verifier::rlimit(100)]
#[verifier::spinoff_prover]
pub fn parse_account(src: &str, v: &Vec<char>, pos: usize) -> (r: Step<Account>)
    requires
        v@ == src@,
        pos <= v@.len(),
    ensures
        step_ok(r, spec_account(v@.skip(pos as int)), pos as int),
        r matches Step::Hit(n, _) ==> pos + n <= v@.len(),
{
    proof {
        reveal(spec_account);
    }
    let ghost s = v@.skip(pos as int);
    let vlen = v.len();
    let nh = match bare_header_tok(v, pos, 1, "account") {
        Step::Miss => {
            return Step::Miss;
        },
        Step::Fatal(e) => {
            return Step::Fatal(e.with_ctx(RecordKind::Account));
        },
        Step::Hit(nh, _) => nh,
    };
    proof {
        crate::records::common::lemma_spec_bare_header_len(1, "account"@, s);
        assert(v@.skip((pos + nh) as int) == s.skip(nh as int));
    }
    let (nb, items, mg) = match account_body(src, v, pos + nh) {
        Result::Err(e) => {
            return Step::Fatal(e.with_ctx(RecordKind::Account));
        },
        Result::Ok(x) => x,
    };
    let end = pos + nh + nb;
    let credits = match take_u64(&items, 0) {
        Option::None => {
            return Step::Fatal(missing_field_err("credits", end).with_ctx(RecordKind::Account));
        },
        Option::Some(x) => x,
    };
    let score = match take_u64(&items, 1) {
        Option::None => {
            return Step::Fatal(missing_field_err("score", end).with_ctx(RecordKind::Account));
        },
        Option::Some(x) => x,
    };
    if score > 0xffffffffu64 {
        return Step::Fatal(conv_fault_err("score", end).with_ctx(RecordKind::Account));
    }
    let mortgage = match mg {
        Option::None => {
            return Step::Fatal(missing_field_err("mortgage", end).with_ctx(RecordKind::Account));
        },
        Option::Some(x) => x,
    };
    Step::Hit(nh + nb, Account { credits: credits, score: score as u32, mortgage: mortgage })
}

/// The leaf-field table of a start record.
pub open spec fn start_descs() -> Seq<Desc> {
    seq![
        Desc { depth: 1, tag: "system", kind: ValueKind::KStr, slot: 0 },
        Desc { depth: 1, tag: "planet", kind: ValueKind::KStr, slot: 1 },
        Desc { depth: 1, tag: "date", kind: ValueKind::KDate, slot: 2 },
        Desc { depth: 1, tag: "set", kind: ValueKind::KStr, slot: 3 },
    ]
}

/// Builds the executable [`start_descs`] table.
fn start_desc_vec() -> (r: Vec<Desc>)
    ensures
        r@ == start_descs(),
{
    let mut r: Vec<Desc> = Vec::new();
    r.push(Desc { depth: 1, tag: "system", kind: ValueKind::KStr, slot: 0 });
    r.push(Desc { depth: 1, tag: "planet", kind: ValueKind::KStr, slot: 1 });
    r.push(Desc { depth: 1, tag: "date", kind: ValueKind::KDate, slot: 2 });
    r.push(Desc { depth: 1, tag: "set", kind: ValueKind::KStr, slot: 3 });
    proof {
        assert(r@ =~= start_descs());
    }
    r
}

/// The outcome of a start body: the characters consumed, the leaf items,
/// and the last account block, or a fatal error.
pub enum StartBody {
    Fatal(ErrV),
    Done(int, Seq<ItemV>, Option<Account>),
}

/// The body of a start record: engine passes over the leaf-field table
/// alternate with account blocks until neither matches.
pub open spec fn spec_start_body(s: Seq<char>) -> StartBody
    decreases s.len(),
{
    match spec_parse_fields(start_descs(), s) {
        FieldsRes::Fatal(f) => StartBody::Fatal(f),
        FieldsRes::Items(n1, items1) => if 0 <= n1 <= s.len() {
            match spec_account(s.skip(n1)) {
                SpecStep::Fatal(f) => StartBody::Fatal(shift_err(f, n1)),
                SpecStep::Miss => StartBody::Done(n1, items1, Option::None),
                SpecStep::Hit(n2, ac) => if 1 <= n2 <= s.len() - n1 {
                    match spec_start_body(s.skip(n1 + n2)) {
                        StartBody::Fatal(f) => StartBody::Fatal(shift_err(f, n1 + n2)),
                        StartBody::Done(m, items2, ac2) => StartBody::Done(
                            n1 + n2 + m,
                            items1 + items2,
                            if ac2 is Some {
                                ac2
                            } else {
                                Option::Some(ac)
                            },
                        ),
                    }
                } else {
                    StartBody::Done(n1, items1, Option::Some(ac))
                },
            }
        } else {
            StartBody::Done(0, Seq::empty(), Option::None)
        },
    }
}

/// A start body consumes at most the whole suffix.
pub proof fn lemma_spec_start_body_len(s: Seq<char>)
    ensures
        spec_start_body(s) matches StartBody::Done(n, _, _) ==> 0 <= n <= s.len(),
    decreases s.len(),
{
    crate::fields::lemma_spec_parse_fields_len(start_descs(), s);
    match spec_parse_fields(start_descs(), s) {
        FieldsRes::Items(n1, items1) => {
            if 0 <= n1 <= s.len() {
                lemma_spec_account_len(s.skip(n1));
                match spec_account(s.skip(n1)) {
                    SpecStep::Hit(n2, _) => {
                        if 1 <= n2 <= s.len() - n1 {
                            lemma_spec_start_body_len(s.skip(n1 + n2));
                        }
                    },
                    _ => {},
                }
            }
        },
        _ => {},
    }
}

/// Executable twin of [`spec_start_body`].
#[verifier::rlimit(100)]
#[verifier::spinoff_prover]
fn start_body(src: &str, v: &Vec<char>, start: usize) -> (r: Result<
    (usize, Vec<crate::fields::Item>, Option<Account>),
    StructuredError,
>)
    requires
        v@ == src@,
        start <= v@.len(),
    ensures
        match r {
            Result::Ok((n, items, ac)) => spec_start_body(v@.skip(start as int))
                == StartBody::Done(n as int, crate::fields::vitems(items@), ac) && start + n
                <= v@.len(),
            Result::Err(e) => spec_start_body(v@.skip(start as int)) matches StartBody::Fatal(f)
                && err_ok(e, f, start as int),
        },
{
    let ghost sb = v@.skip(start as int);
    let vlen = v.len();
    let descs = start_desc_vec();
    let mut cur: usize = start;
    let mut items: Vec<crate::fields::Item> = Vec::new();
    let mut account: Option<Account> = Option::None;
    loop
        invariant
            v@ == src@,
            vlen == v@.len(),
            start <= cur <= v@.len(),
            sb == v@.skip(start as int),
            descs@ == start_descs(),
            ({
                match spec_start_body(v@.skip(cur as int)) {
                    StartBody::Done(m, items2, ac2) => spec_start_body(sb) == StartBody::Done(
                        cur - start + m,
                        crate::fields::vitems(items@) + items2,
                        if ac2 is Some {
                            ac2
                        } else {
                            account
                        },
                    ),
                    StartBody::Fatal(f) => spec_start_body(sb) == StartBody::Fatal(
                        shift_err(f, cur - start),
                    ),
                }
            }),
        decreases v@.len() - cur,
    {
        let ghost scur = v@.skip(cur as int);
        let (n1, mut items1) = match parse_fields(src, v, cur, &descs) {
            Result::Err(e) => {
                return Result::Err(e);
            },
            Result::Ok(x) => x,
        };
        proof {
            crate::fields::lemma_spec_parse_fields_len(start_descs(), scur);
            assert(v@.skip((cur + n1) as int) == scur.skip(n1 as int));
        }
        let ghost prev_items = crate::fields::vitems(items@);
        let ghost new_items = crate::fields::vitems(items1@);
        items.append(&mut items1);
        proof {
            assert(crate::fields::vitems(items@) =~= prev_items + new_items);
        }
        match parse_account(src, v, cur + n1) {
            Step::Fatal(e) => {
                return Result::Err(e);
            },
            Step::Miss => {
                proof {
                    assert((prev_items + new_items) + Seq::<ItemV>::empty() =~= (prev_items
                        + new_items));
                }
                return Result::Ok((cur + n1 - start, items, account));
            },
            Step::Hit(n2, ac) => {
                proof {
                    lemma_spec_account_len(scur.skip(n1 as int));
                    assert(v@.skip((cur + n1 + n2) as int) == scur.skip(n1 + n2));
                    match spec_start_body(scur.skip(n1 + n2)) {
                        StartBody::Done(m3, items3, _) => {
                            assert((prev_items + (new_items + items3)) =~= ((prev_items
                                + new_items) + items3));
                        },
                        StartBody::Fatal(_) => {},
                    }
                }
                account = Option::Some(ac);
                cur = cur + n1 + n2;
            },
        }
    }
}

/// A start record: a bare header line, then its body; the system, planet,
/// date, set and account are all mandatory.
#[verifier::opaque]
pub open spec fn spec_parse_start(s: Seq<char>) -> SpecStep<StartV> {
    match spec_bare_header(0, "start"@, s) {
        SpecStep::Miss => SpecStep::Miss,
        SpecStep::Fatal(f) => SpecStep::Fatal(push_ctx(f, RecordKind::Start)),
        SpecStep::Hit(nh, _) => if 1 <= nh <= s.len() {
            match spec_start_body(s.skip(nh)) {
                StartBody::Fatal(f) => SpecStep::Fatal(
                    push_ctx(shift_err(f, nh), RecordKind::Start),
                ),
                StartBody::Done(nb, items, ac) => {
                    let end = nh + nb;
                    match opt_str_slot(items, 0) {
                        Option::None => SpecStep::Fatal(
                            push_ctx(missing_field("system"@, end), RecordKind::Start),
                        ),
                        Option::Some(system) => match opt_str_slot(items, 1) {
                            Option::None => SpecStep::Fatal(
                                push_ctx(missing_field("planet"@, end), RecordKind::Start),
                            ),
                            Option::Some(planet) => match opt_date_slot(items, 2) {
                                Option::None => SpecStep::Fatal(
                                    push_ctx(missing_field("date"@, end), RecordKind::Start),
                                ),
                                Option::Some(date) => match opt_str_slot(items, 3) {
                                    Option::None => SpecStep::Fatal(
                                        push_ctx(missing_field("set"@, end), RecordKind::Start),
                                    ),
                                    Option::Some(set) => match ac {
                                        Option::None => SpecStep::Fatal(
                                            push_ctx(
                                                missing_field("account"@, end),
                                                RecordKind::Start,
                                            ),
                                        ),
                                        Option::Some(account) => SpecStep::Hit(
                                            end,
                                            StartV {
                                                date: date,
                                                system: system,
                                                planet: planet,
                                                account: account,
                                                set: set,
                                            },
                                        ),
                                    },
                                },
                            },
                        },
                    }
                },
            }
        } else {
            SpecStep::Miss
        },
    }
}

/// A start hit consumes at least one character and at most the whole
/// suffix.
pub proof fn lemma_spec_parse_start_len(s: Seq<char>)
    ensures
        spec_parse_start(s) matches SpecStep::Hit(n, _) ==> 1 <= n <= s.len(),
{
    reveal(spec_parse_start);
    crate::records::common::lemma_spec_bare_header_len(0, "start"@, s);
    match spec_bare_header(0, "start"@, s) {
        SpecStep::Hit(nh, _) => {
            if 1 <= nh <= s.len() {
                lemma_spec_start_body_len(s.skip(nh));
            }
        },
        _ => {},
    }
}

/// Executable twin of [`spec_parse_start`].
#[verifier::rlimit(100)]
#[verifier::spinoff_prover]
pub fn parse_start(src: &str, v: &Vec<char>, pos: usize) -> (r: Step<Start>)
    requires
        v@ == src@,
        pos <= v@.len(),
    ensures
        step_ok(r, spec_parse_start(v@.skip(pos as int)), pos as int),
        r matches Step::Hit(n, _) ==> pos + n <= v@.len(),
{
    proof {
        reveal(spec_parse_start);
    }
    let ghost s = v@.skip(pos as int);
    let vlen = v.len();
    let nh = match bare_header_tok(v, pos, 0, "start") {
        Step::Miss => {
            return Step::Miss;
        },
        Step::Fatal(e) => {
            return Step::Fatal(e.with_ctx(RecordKind::Start));
        },
        Step::Hit(nh, _) => nh,
    };
    proof {
        crate::records::common::lemma_spec_bare_header_len(0, "start"@, s);
        assert(v@.skip((pos + nh) as int) == s.skip(nh as int));
    }
    let (nb, items, ac) = match start_body(src, v, pos + nh) {
        Result::Err(e) => {
            return Step::Fatal(e.with_ctx(RecordKind::Start));
        },
        Result::Ok(x) => x,
    };
    let end = pos + nh + nb;
    let system = match take_str(&items, 0) {
        Option::None => {
            return Step::Fatal(missing_field_err("system", end).with_ctx(RecordKind::Start));
        },
        Option::Some(x) => x,
    };
    let planet = match take_str(&items, 1) {
        Option::None => {
            return Step::Fatal(missing_field_err("planet", end).with_ctx(RecordKind::Start));
        },
        Option::Some(x) => x,
    };
    let date = match take_date(&items, 2) {
        Option::None => {
            return Step::Fatal(missing_field_err("date", end).with_ctx(RecordKind::Start));
        },
        Option::Some(x) => x,
    };
    let set = match take_str(&items, 3) {
        Option::None => {
            return Step::Fatal(missing_field_err("set", end).with_ctx(RecordKind::Start));
        },
        Option::Some(x) => x,
    };
    let account = match ac {
        Option::None => {
            return Step::Fatal(missing_field_err("account", end).with_ctx(RecordKind::Start));
        },
        Option::Some(x) => x,
    };
    Step::Hit(
        nh + nb,
        Start { date: date, system: system, planet: planet, account: account, set: set },
    )
}

} // verus!
