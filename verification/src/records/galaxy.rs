//! The galaxy record.
//!
//! A galaxy header names it; the position is mandatory and the sprite
//! optional, in either order at depth one.

use vstd::prelude::*;

use crate::err::{push_ctx, step_ok, RecordKind, SpecStep, Step, shift_err};
use crate::fields::{parse_fields, spec_parse_fields, Desc, FieldsRes, ItemV, ValueKind};
use crate::records::common::{missing_field, missing_field_err, spec_str_header, str_header_tok};
use crate::slots::{opt_dec_pair_slot, opt_str_slot, take_dec_pair, take_str};
use crate::types::{Galaxy, GalaxyV, Position};

verus! {

/// The leaf-field table of a galaxy.
pub open spec fn galaxy_descs() -> Seq<Desc> {
    seq![
        Desc { depth: 1, tag: "pos", kind: ValueKind::KDecPair, slot: 0 },
        Desc { depth: 1, tag: "sprite", kind: ValueKind::KStr, slot: 1 },
    ]
}

/// Builds the executable [`galaxy_descs`] table.
fn galaxy_desc_vec() -> (r: Vec<Desc>)
    ensures
        r@ == galaxy_descs(),
{
    let mut r: Vec<Desc> = Vec::new();
    r.push(Desc { depth: 1, tag: "pos", kind: ValueKind::KDecPair, slot: 0 });
    r.push(Desc { depth: 1, tag: "sprite", kind: ValueKind::KStr, slot: 1 });
    proof {
        assert(r@ =~= galaxy_descs());
    }
    r
}

/// A galaxy record: the header line naming it, then its fields; the
/// position is mandatory.
#[verifier::opaque]
pub open spec fn spec_parse_galaxy(s: Seq<char>) -> SpecStep<GalaxyV> {
    match spec_str_header(0, "galaxy"@, s) {
        SpecStep::Miss => SpecStep::Miss,
        SpecStep::Fatal(f) => SpecStep::Fatal(push_ctx(f, RecordKind::Galaxy)),
        SpecStep::Hit(nh, name) => if 1 <= nh <= s.len() {
            match spec_parse_fields(galaxy_descs(), s.skip(nh)) {
                FieldsRes::Fatal(f) => SpecStep::Fatal(
                    push_ctx(shift_err(f, nh), RecordKind::Galaxy),
                ),
                FieldsRes::Items(nf, items) => {
                    let end = nh + nf;
                    match opt_dec_pair_slot(items, 0) {
                        Option::None => SpecStep::Fatal(
                            push_ctx(missing_field("pos"@, end), RecordKind::Galaxy),
                        ),
                        Option::Some(p) => SpecStep::Hit(
                            end,
                            GalaxyV {
                                pos: Position { x: p.0, y: p.1 },
                                name: name,
                                sprite: opt_str_slot(items, 1),
                            },
                        ),
                    }
                },
            }
        } else {
            SpecStep::Miss
        },
    }
}

/// A galaxy hit consumes at least one character and at most the whole
/// suffix.
pub proof fn lemma_spec_parse_galaxy_len(s: Seq<char>)
    ensures
        spec_parse_galaxy(s) matches SpecStep::Hit(n, _) ==> 1 <= n <= s.len(),
{
    reveal(spec_parse_galaxy);
    crate::records::common::lemma_spec_str_header_len(0, "galaxy"@, s);
    match spec_str_header(0, "galaxy"@, s) {
        SpecStep::Hit(nh, _) => {
            if 1 <= nh <= s.len() {
                crate::fields::lemma_spec_parse_fields_len(galaxy_descs(), s.skip(nh));
            }
        },
        _ => {},
    }
}

/// Executable twin of [`spec_parse_galaxy`].
pub fn parse_galaxy(src: &str, v: &Vec<char>, pos: usize) -> (r: Step<Galaxy>)
    requires
        v@ == src@,
        pos <= v@.len(),
    ensures
        step_ok(r, spec_parse_galaxy(v@.skip(pos as int)), pos as int),
        r matches Step::Hit(n, _) ==> pos + n <= v@.len(),
{
    proof {
        reveal(spec_parse_galaxy);
    }
    let ghost s = v@.skip(pos as int);
    let vlen = v.len();
    let (nh, name) = match str_header_tok(src, v, pos, 0, "galaxy") {
        Step::Miss => {
            return Step::Miss;
        },
        Step::Fatal(e) => {
            return Step::Fatal(e.with_ctx(RecordKind::Galaxy));
        },
        Step::Hit(nh, name) => (nh, name),
    };
    proof {
        crate::records::common::lemma_spec_str_header_len(0, "galaxy"@, s);
        assert(v@.skip((pos + nh) as int) == s.skip(nh as int));
    }
    let descs = galaxy_desc_vec();
    let (nf, items) = match parse_fields(src, v, pos + nh, &descs) {
        Result::Err(e) => {
            return Step::Fatal(e.with_ctx(RecordKind::Galaxy));
        },
        Result::Ok(x) => x,
    };
    let end = pos + nh + nf;
    let p = match take_dec_pair(&items, 0) {
        Option::None => {
            return Step::Fatal(missing_field_err("pos", end).with_ctx(RecordKind::Galaxy));
        },
        Option::Some(p) => p,
    };
    Step::Hit(
        nh + nf,
        Galaxy { pos: Position { x: p.0, y: p.1 }, name: name, sprite: take_str(&items, 1) },
    )
}

} // verus!
