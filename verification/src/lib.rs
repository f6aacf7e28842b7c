//! A parser for a line-oriented, indentation-sensitive game-data description
//! language.  The input is a text buffer holding top-level records (planets,
//! systems, galaxies, outfits, effects, a player start record, ...); the
//! output is a strongly typed object graph, built by a recursive-descent
//! parser whose behaviour is specified against a mathematical model of the
//! grammar.

pub mod chars;
pub mod err;
pub mod fields;
pub mod laws;
pub mod lex;
pub mod parser;
pub mod records;
pub mod slots;
pub mod types;

pub use chars::str_to_char_vec;
pub use err::{ErrorKind, RecordKind, Step, StructuredError};
pub use parser::{parse, validate, validate_blocks, BatchReport};
pub use types::{
    Account, Asteroids, Date, Decimal, Effect, Fleet, Galaxy, Minables, Mortgage, NamedCount,
    Object, Outfit, Planet, Position, Sprite, Start, System, SystemObject, Trade, Tribute, Weapon,
};
