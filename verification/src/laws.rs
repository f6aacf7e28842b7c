//! The global laws of the parser, stated and proved over its spec model.

use vstd::prelude::*;

use crate::err::{shift_err, push_ctx, RecordKind, SpecStep};
use crate::fields::{spec_parse_fields, spec_try_desc, spec_try_descs, Desc, FieldsRes, ItemV};
use crate::lex::{lemma_tick_run, spec_backtick, spec_bare_tok, spec_comment, spec_line_end,
    spec_quoted, spec_string, string_fault};
use crate::parser::{spec_batch, spec_top_step, spec_validate, BatchV, ParseOut, TopStep};
use crate::records::common::{missing_field, spec_u64_header};
use crate::records::planet::{spec_finalize_planet, spec_parse_planet, spec_tribute,
    tribute_descs};
use crate::slots::{opt_u64_slot, slot_values};
use crate::types::{ObjectV, PlanetV, TributeV};

verus! {

/// Parsing is deterministic: the outcome of the strict parse is a pure
/// function of the input text, so validating the same well-formed input
/// twice yields identical object sequences — there is no hidden state
/// and no nondeterminism.
pub proof fn lemma_validate_deterministic(s1: Seq<char>, s2: Seq<char>)
    requires
        s1 == s2,
    ensures
        spec_validate(s1) == spec_validate(s2),
{
}

/// Order-independence of sibling fields: two parsed field-item sequences
/// that give every slot the same values in the same per-slot order
/// finalize to the identical planet.  A permutation of sibling field
/// lines at the same depth distributes the same values to the same
/// slots — only the internal order of a repeatable field's own
/// occurrences is significant, and it is preserved per slot.
pub proof fn lemma_planet_order_independent(
    name: Seq<char>,
    items1: Seq<ItemV>,
    items2: Seq<ItemV>,
    tribute: Option<TributeV>,
)
    requires
        forall|k: int| slot_values(items1, k) == slot_values(items2, k),
    ensures
        spec_finalize_planet(name, items1, tribute) == spec_finalize_planet(
            name,
            items2,
            tribute,
        ),
{
    assert(slot_values(items1, 0int) == slot_values(items2, 0int));
    assert(slot_values(items1, 1int) == slot_values(items2, 1int));
    assert(slot_values(items1, 2int) == slot_values(items2, 2int));
    assert(slot_values(items1, 3int) == slot_values(items2, 3int));
    assert(slot_values(items1, 4int) == slot_values(items2, 4int));
    assert(slot_values(items1, 5int) == slot_values(items2, 5int));
    assert(slot_values(items1, 6int) == slot_values(items2, 6int));
}

/// Restore-on-failure for the string-literal forms: when the
/// double-quoted form fails recoverably, the bare-token form is tried on
/// the very same suffix, and when that also fails the backtick form is
/// — a failed alternative consumes nothing.
pub proof fn lemma_string_alternatives_restore(s: Seq<char>)
    ensures
        spec_quoted(s) is Miss && spec_bare_tok(s) is Miss ==> spec_string(s) == spec_backtick(s),
        spec_quoted(s) is Miss ==> (match spec_bare_tok(s) {
            SpecStep::Hit(n, c) => spec_string(s) == SpecStep::<Seq<char>>::Hit(n, c),
            _ => true,
        }),
{
}

/// Restore-on-failure for optional-field probing: a field descriptor
/// that fails recoverably leaves the suffix untouched for the next
/// descriptor of the table.
pub proof fn lemma_desc_alternatives_restore(descs: Seq<Desc>, i: int, s: Seq<char>)
    requires
        0 <= i < descs.len(),
        spec_try_desc(descs[i], s) is Miss,
    ensures
        spec_try_descs(descs, i, s) == spec_try_descs(descs, i + 1, s),
{
}

/// Restore-on-failure for the top-level dispatch: when the blank-line,
/// comment and start-record alternatives all fail recoverably, the
/// planet record is tried on the very same suffix.
pub proof fn lemma_top_alternatives_restore(s: Seq<char>, n: int, o: PlanetV)
    requires
        s.len() > 0,
        spec_line_end(s) is None,
        spec_comment(s) is None,
        crate::records::start::spec_parse_start(s) is Miss,
        spec_parse_planet(s) == SpecStep::<PlanetV>::Hit(n, o),
    ensures
        spec_top_step(s) == TopStep::Obj(n, ObjectV::Planet(o)),
{
}

/// Indentation equivalence: a depth-one field written with one tab
/// parses to the same item as the same field written with exactly four
/// spaces; only the count of consumed characters differs, by three.
#[verifier::spinoff_prover]
#[verifier::rlimit(100)]
pub proof fn lemma_indent_equivalence(d: Desc, rest: Seq<char>)
    requires
        d.depth == 1,
    ensures
        ({
            let t = seq!['\t'] + rest;
            let f = seq![' ', ' ', ' ', ' '] + rest;
            match (spec_try_desc(d, t), spec_try_desc(d, f)) {
                (SpecStep::Miss, SpecStep::Miss) => true,
                (SpecStep::Hit(n1, i1), SpecStep::Hit(n2, i2)) => i1 == i2 && n2 == n1 + 3,
                (SpecStep::Fatal(f1), SpecStep::Fatal(f2)) => f2 == shift_err(f1, 3),
                _ => false,
            }
        }),
{
    let t = seq!['\t'] + rest;
    let f = seq![' ', ' ', ' ', ' '] + rest;
    assert(t.len() == 1 + rest.len());
    assert(f.len() == 4 + rest.len());
    assert(t[0] == '\t');
    assert(f[0] == ' ' && f[1] == ' ' && f[2] == ' ' && f[3] == ' ');
    assert(t.skip(1) =~= rest);
    assert(f.skip(4) =~= rest);
    assert(crate::lex::spec_indent(t.skip(1), 0) == Option::Some(0int));
    assert(crate::lex::spec_indent(f.skip(4), 0) == Option::Some(0int));
    assert(crate::lex::spec_indent(t, 1) == Option::Some(1int));
    assert(crate::lex::spec_indent(f, 1) == Option::Some(4int));
    let tl = d.tag@.len() as int;
    if crate::fields::tag_match(rest, d.tag@) {
        assert(tl <= rest.len());
        assert(t.skip(1 + tl) =~= rest.skip(tl));
        assert(f.skip(4 + tl) =~= rest.skip(tl));
        if d.kind is KFlag {
            assert(t.skip(1 + tl) == rest.skip(tl));
        } else {
            crate::lex::lemma_run_le_len(rest.skip(tl));
            match crate::lex::spec_hspace1(rest.skip(tl)) {
                Option::None => {},
                Option::Some(h) => {
                    assert(0 < h <= rest.skip(tl).len());
                    assert(t.skip(1 + tl + h) =~= rest.skip(tl + h));
                    assert(f.skip(4 + tl + h) =~= rest.skip(tl + h));
                    crate::fields::lemma_spec_value_len(d.kind, rest.skip(tl + h));
                    match crate::fields::spec_value(d.kind, rest.skip(tl + h)) {
                        SpecStep::Hit(n, val) => {
                            assert(1 <= n <= rest.skip(tl + h).len());
                            assert(t.skip(1 + tl + h + n) =~= rest.skip(tl + h + n));
                            assert(f.skip(4 + tl + h + n) =~= rest.skip(tl + h + n));
                        },
                        _ => {},
                    }
                },
            }
        }
    }
}

/// Required-field enforcement: a tribute block whose fields are all well
/// formed but that never sets its mandatory threshold fails with a
/// missing-required-field error naming the tribute record and the
/// threshold field.
pub proof fn lemma_tribute_missing_threshold(
    s: Seq<char>,
    nh: int,
    value: u64,
    nf: int,
    items: Seq<ItemV>,
)
    requires
        spec_u64_header(1, "tribute"@, s) == SpecStep::<u64>::Hit(nh, value),
        1 <= nh <= s.len(),
        value <= u32::MAX,
        spec_parse_fields(tribute_descs(), s.skip(nh)) == FieldsRes::Items(nf, items),
        opt_u64_slot(items, 0) is None,
    ensures
        spec_tribute(s) == SpecStep::<TributeV>::Fatal(
            push_ctx(missing_field("threshold"@, nh + nf), RecordKind::Tribute),
        ),
{
    reveal(spec_tribute);
}

/// A committed backtick string that never closes is an
/// incomplete-after-commit failure pointing at the end of the suffix —
/// it is not treated as an absent field.
pub proof fn lemma_unterminated_backtick(s: Seq<char>)
    requires
        s.len() > 0,
        s[0] == '`',
        forall|j: int| 1 <= j < s.len() ==> s[j] != '`',
    ensures
        spec_backtick(s) == SpecStep::<Seq<char>>::Fatal(string_fault(s.len() as int)),
        string_fault(s.len() as int).kind == crate::err::ErrorKind::IncompleteAfterCommit,
{
    let t = s.skip(1);
    assert forall|j: int| 0 <= j < t.len() implies t[j] != '`' by {
        assert(t[j] == s[j + 1]);
    }
    lemma_tick_run(t, t.len() as int);
}

/// The batch outcome of a two-block buffer whose first block validates
/// and whose second fails: two blocks counted, one good, and the second
/// block's own diagnostic as the first failure.
pub proof fn lemma_batch_two_blocks(b1: Seq<char>, b2: Seq<char>, f: crate::err::ErrV)
    requires
        spec_validate(b1) is Objs,
        spec_validate(b2) == ParseOut::Fatal(f),
    ensures
        spec_batch(seq![b1, b2]) == (BatchV {
            total: 2,
            ok: 1,
            first_failure: Option::Some((1int, f)),
        }),
{
    let bs = seq![b1, b2];
    assert(bs.drop_last() =~= seq![b1]);
    assert(bs.last() == b2);
    let one = seq![b1];
    assert(one.drop_last() =~= Seq::<Seq<char>>::empty());
    assert(one.last() == b1);
    assert(spec_batch(Seq::<Seq<char>>::empty()) == (BatchV {
        total: 0,
        ok: 0,
        first_failure: Option::<(int, crate::err::ErrV)>::None,
    }));
    assert(spec_batch(one) == (BatchV {
        total: 1,
        ok: 1,
        first_failure: Option::<(int, crate::err::ErrV)>::None,
    }));
}

} // verus!
