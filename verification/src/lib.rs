//! A parser-combinator toolkit: recursive-descent parsers for arbitrary
//! grammars are assembled by combining small parser values, without a
//! grammar-compilation step.
//!
//! A parser is a stateless value. Its whole behaviour is a spec function
//! of the input model alone, every executable parser is proved to return
//! exactly that outcome, and every parser is proved to consume a prefix of
//! its input: the remainder is a suffix of the text and the position
//! advances over exactly the consumed characters.

pub mod chains;
pub mod combinators;
pub mod combiners;
pub mod data;
pub mod file_pos;
pub mod laws;
pub mod modifiers;
pub mod or5;
pub mod parser;
pub mod parsers_ext;
pub mod primitives;
pub mod repeat;
