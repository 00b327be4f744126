//! A syntax tree for Ruby programs and the emitters that turn a tree back
//! into source text.
//!
//! [`ast`] is the model: one closed type for each syntactic category. A
//! tree is built once and only read afterwards.
//!
//! [`emitters`] write a tree out. What an emitter writes depends on the node
//! alone, and its contract gives the text character for character, as a
//! function of the node. Sequences are written in the order they are held:
//! nothing is sorted and nothing is dropped. The one exception are the
//! flags of a regular expression, which the model holds in no order of its
//! own: they are written once each, in the order of their declaration.
//!
//! [`text`] holds what the emitters share.
//!
//! The tree holds an integer by its value and a float by the decimal form
//! of its value. The digits, underscores and radix that a number was written
//! with are not kept, so a number may be written out otherwise than it was
//! read.

pub mod ast;
pub mod emitters;
pub mod text;
