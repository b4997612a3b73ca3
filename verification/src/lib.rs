//! A typed term algebra with a canonicalizing factory and a textual writer.
//!
//! Every term is typed by another term; a unique self-typed root term anchors
//! the hierarchy.  A [`TermFactory`](termfactory::TermFactory) is the sole
//! authority for building terms and for the canonical well-known instances,
//! and the writer renders a term tree in the canonical notation.

pub mod eli_writer;
pub mod linux;
pub mod locus;
pub mod macos;
pub mod repl;
pub mod term;
pub mod termfactory;
pub mod util;
pub mod win32;

pub use eli_writer::{EliWriter, TermWriter};
pub use locus::Locus;
pub use term::Term;
pub use termfactory::TermFactory;
