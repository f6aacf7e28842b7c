//! The error taxonomy of the parser and the result type its combinators
//! return, together with the spec-level mirror of both.
//!
//! A combinator either hits (consuming a prefix of its input and producing a
//! value), misses (a recoverable mismatch: the caller's position is untouched
//! and the next alternative may be tried), or fails fatally (a committed
//! pattern could not complete, a required field was absent, a digit run did
//! not fit its numeric type, or no top-level form matched).  Only the fatal
//! outcomes carry a [`StructuredError`].

use vstd::prelude::*;

verus! {

/// The kinds of non-recoverable parse failure.
#[derive(Debug, Clone, Copy, PartialEq, Eq, Structural)]
pub enum ErrorKind {
    /// A pattern started matching (an opening quote, a recognized tag) but
    /// could not complete; the enclosing record is aborted.
    IncompleteAfterCommit,
    /// A record finished its fields without a mandatory one being set.
    MissingRequiredField,
    /// Non-blank input remained that no top-level form matched.
    UnrecognizedTopLevelConstruct,
    /// A syntactically valid digit run did not fit the target numeric type.
    NumericConversionFault,
}

/// The record kinds of the grammar; they name the frames of an error's
/// context chain and the owner of a missing required field.
#[derive(Debug, Clone, Copy, PartialEq, Eq, Structural)]
pub enum RecordKind {
    Planet,
    Tribute,
    Fleet,
    Start,
    Account,
    Mortgage,
    Galaxy,
    System,
    SystemObject,
    Sprite,
    Effect,
    Outfit,
    Weapon,
}

/// A structured parse error: its kind, the chain of record kinds it was
/// raised inside (innermost first), the tag of the field involved where one
/// is, and the character offset into the original input at which the
/// offending unconsumed fragment starts.
#[derive(Debug, Clone, PartialEq, Eq)]
pub struct StructuredError {
    /// What went wrong.
    pub kind: ErrorKind,
    /// The enclosing record kinds, innermost first.
    pub context: Vec<RecordKind>,
    /// The tag of the field being parsed or found missing, if any.
    pub field: Option<String>,
    /// Character offset into the input of the point of failure.
    pub at: usize,
}

/// The spec-level mirror of [`StructuredError`].  Its `at` offset is
/// relative to the start of the suffix the failing combinator was given.
pub struct ErrV {
    pub kind: ErrorKind,
    pub context: Seq<RecordKind>,
    pub field: Option<Seq<char>>,
    pub at: int,
}

/// The spec-level outcome of a combinator on a suffix of the input:
/// a fatal error, a recoverable mismatch, or a hit consuming a prefix.
pub enum SpecStep<T> {
    Fatal(ErrV),
    Miss,
    Hit(int, T),
}

/// The outcome of an executable combinator: a fatal error, a recoverable
/// mismatch (nothing consumed), or a hit with the number of characters
/// consumed and the parsed value.
#[derive(Debug)]
pub enum Step<T> {
    Fatal(StructuredError),
    Miss,
    Hit(usize, T),
}

/// The executable error `e` realizes the spec error `f` raised while
/// parsing the suffix starting at absolute position `pos`.
pub open spec fn err_ok(e: StructuredError, f: ErrV, pos: int) -> bool {
    &&& e.kind == f.kind
    &&& e.context@ == f.context
    &&& match (e.field, f.field) {
        (Option::None, Option::None) => true,
        (Option::Some(x), Option::Some(y)) => x@ == y,
        _ => false,
    }
    &&& e.at == pos + f.at
}

/// The executable step `r`, produced while parsing the suffix starting at
/// absolute position `pos`, realizes the spec step `s`.
pub open spec fn step_ok<T: View>(r: Step<T>, s: SpecStep<T::V>, pos: int) -> bool {
    match r {
        Step::Fatal(e) => s matches SpecStep::Fatal(f) && err_ok(e, f, pos),
        Step::Miss => s is Miss,
        Step::Hit(n, v) => s matches SpecStep::Hit(m, w) && n == m && v@ == w,
    }
}

/// The spec error `f`, raised while parsing a suffix that starts `k`
/// characters into the present one: the same error with its offset shifted.
pub open spec fn shift_err(f: ErrV, k: int) -> ErrV {
    ErrV { kind: f.kind, context: f.context, field: f.field, at: f.at + k }
}

/// The spec error `f` with the field tag `tag` recorded, where no inner
/// field recorded one already.
pub open spec fn fill_field(f: ErrV, tag: Seq<char>) -> ErrV {
    if f.field is None {
        ErrV { kind: f.kind, context: f.context, field: Option::Some(tag), at: f.at }
    } else {
        f
    }
}

/// A fatal spec error stays fatal when its context chain is extended by the
/// enclosing record `k` (offsets are unchanged: the enclosing record began
/// parsing the same suffix).
pub open spec fn push_ctx(f: ErrV, k: RecordKind) -> ErrV {
    ErrV { kind: f.kind, context: f.context.push(k), field: f.field, at: f.at }
}

impl StructuredError {
    /// Records the tag of the enclosing field, where no inner field
    /// recorded one already.
    pub fn with_field(self, tag: &str) -> (r: StructuredError)
        ensures
            r.kind == self.kind,
            r.context@ == self.context@,
            r.at == self.at,
            match (self.field, r.field) {
                (Option::None, Option::Some(t)) => t@ == tag@,
                (Option::Some(x), Option::Some(y)) => x == y,
                _ => false,
            },
    {
        let mut e = self;
        if e.field.is_none() {
            e.field = Option::Some(<String as vstd::string::StringExecFns>::from_str(tag));
        }
        e
    }

    /// Shifts the error's offset by the absolute position the enclosing
    /// suffix starts at.
    pub fn shifted(self, base: usize) -> (r: StructuredError)
        requires
            base + self.at <= usize::MAX,
        ensures
            r.kind == self.kind,
            r.context@ == self.context@,
            r.field == self.field,
            r.at == self.at + base,
    {
        let mut e = self;
        e.at = e.at + base;
        e
    }

    /// Extends the context chain outward with the enclosing record kind.
    pub fn with_ctx(self, k: RecordKind) -> (r: StructuredError)
        ensures
            r.kind == self.kind,
            r.context@ == self.context@.push(k),
            r.field == self.field,
            r.at == self.at,
    {
        let mut e = self;
        e.context.push(k);
        e
    }
}

} // verus!
