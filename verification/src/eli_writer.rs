//! The canonical textual rendering of a term tree.

use vstd::prelude::*;
use vstd::string::*;
use std::sync::Arc;
use crate::term::{Term, TermModel, symbol_model, string_model, boolean_model, any_model};
use crate::termfactory::{TermFactory, is_named_root};
use crate::util::{escape, esc_seq, sym_text};

verus! {

/// Is a guard term elided?  Only a Boolean-true literal whose type is the
/// canonical BOOLEAN term is; its locus does not matter.
pub open spec fn guard_elided(g: TermModel) -> bool {
    g matches TermModel::BooleanLiteral { typ, value, .. } && *typ == boolean_model() && value
        == true
}

/// The canonical notation for a term.  A type suffix `": "` plus the
/// rendered type is elided when the type is the expected default: the root
/// term for a well-known symbol, SYMBOL for other symbols, STRING for
/// strings, BOOLEAN for Booleans, ANY for variables.
pub open spec fn eli(t: TermModel) -> Seq<char>
    decreases t,
{
    match t {
        TermModel::Root => "^ROOT"@,
        TermModel::SymbolLiteral { typ, value, .. } => {
            let base = sym_text(value);
            let elide = if is_named_root(value) {
                *typ == TermModel::Root
            } else {
                *typ == symbol_model()
            };
            if elide {
                base
            } else {
                base + ": "@ + eli(*typ)
            }
        },
        TermModel::StringLiteral { typ, value, .. } => {
            let base = "\""@ + esc_seq(value, '"') + "\""@;
            if *typ == string_model() {
                base
            } else {
                base + ": "@ + eli(*typ)
            }
        },
        TermModel::BooleanLiteral { typ, value, .. } => {
            let base = if value {
                "true"@
            } else {
                "false"@
            };
            if *typ == boolean_model() {
                base
            } else {
                base + ": "@ + eli(*typ)
            }
        },
        TermModel::Variable { typ, name, guard, .. } => {
            let base = "$"@ + sym_text(name);
            let with_guard = if guard_elided(*guard) {
                base
            } else {
                base + "{"@ + eli(*guard) + "}"@
            };
            if *typ == any_model() {
                with_guard
            } else {
                with_guard + ": "@ + eli(*typ)
            }
        },
        TermModel::StaticMap { domain, codomain, .. } => eli(*domain) + " => "@ + eli(*codomain),
        TermModel::StaticProduct { lhs, rhs, .. } => eli(*lhs) + " * "@ + eli(*rhs),
        TermModel::Lambda { param, body, guard, .. } => {
            let base = eli(*param) + " ->"@;
            let with_guard = if guard_elided(*guard) {
                base
            } else {
                base + "{"@ + eli(*guard) + "}"@
            };
            with_guard + " "@ + eli(*body)
        },
    }
}

/// Append the canonical notation for `term` to `out`.  The factory resolves
/// which types are the elidable defaults.
#[verifier::rlimit(100)]
#[verifier::spinoff_prover]
pub fn write_term(fact: &TermFactory, term: &Term, out: &mut String)
    ensures
        final(out)@ == old(out)@ + eli(term@),
    decreases *term,
{
    match term {
        Term::Root => {
            out.append("^ROOT");
        },
        Term::SymbolLiteral { typ, value, .. } => {
            let (escaped, modified) = escape(value, '`');
            if modified {
                out.append("`");
                out.append(escaped.as_str());
                out.append("`");
            } else {
                out.append(escaped.as_str());
            }
            let elide = if fact.is_named_root_term(value) {
                let root = fact.get_root();
                **typ == *root
            } else {
                let symbol = fact.get_symbol();
                **typ == *symbol
            };
            if !elide {
                out.append(": ");
                write_term(fact, typ, out);
            }
            proof {
                assert(out@ =~= old(out)@ + eli(term@));
            }
        },
        Term::StringLiteral { typ, value, .. } => {
            let (escaped, _) = escape(value, '"');
            out.append("\"");
            out.append(escaped.as_str());
            out.append("\"");
            let string_t = fact.get_string();
            if !(**typ == *string_t) {
                out.append(": ");
                write_term(fact, typ, out);
            }
            proof {
                assert(out@ =~= old(out)@ + eli(term@));
            }
        },
        Term::BooleanLiteral { typ, value, .. } => {
            if *value {
                out.append("true");
            } else {
                out.append("false");
            }
            let boolean_t = fact.get_boolean();
            if !(**typ == *boolean_t) {
                out.append(": ");
                write_term(fact, typ, out);
            }
            proof {
                assert(out@ =~= old(out)@ + eli(term@));
            }
        },
        Term::Variable { typ, name, guard, .. } => {
            let (escaped, modified) = escape(name, '`');
            out.append("$");
            if modified {
                out.append("`");
                out.append(escaped.as_str());
                out.append("`");
            } else {
                out.append(escaped.as_str());
            }
            let skip_guard = match &**guard {
                Term::BooleanLiteral { typ: gt, value: gv, .. } => {
                    let boolean_t = fact.get_boolean();
                    **gt == *boolean_t && *gv
                },
                _ => false,
            };
            if !skip_guard {
                out.append("{");
                write_term(fact, guard, out);
                out.append("}");
            }
            let any_t = fact.get_any();
            if !(**typ == *any_t) {
                out.append(": ");
                write_term(fact, typ, out);
            }
            proof {
                assert(out@ =~= old(out)@ + eli(term@));
            }
        },
        Term::StaticMap { domain, codomain, .. } => {
            write_term(fact, domain, out);
            out.append(" => ");
            write_term(fact, codomain, out);
            proof {
                assert(out@ =~= old(out)@ + eli(term@));
            }
        },
        Term::StaticProduct { lhs, rhs, .. } => {
            write_term(fact, lhs, out);
            out.append(" * ");
            write_term(fact, rhs, out);
            proof {
                assert(out@ =~= old(out)@ + eli(term@));
            }
        },
        Term::Lambda { param, body, guard, .. } => {
            write_term(fact, param, out);
            out.append(" ->");
            let skip_guard = match &**guard {
                Term::BooleanLiteral { typ: gt, value: gv, .. } => {
                    let boolean_t = fact.get_boolean();
                    **gt == *boolean_t && *gv
                },
                _ => false,
            };
            if !skip_guard {
                out.append("{");
                write_term(fact, guard, out);
                out.append("}");
            }
            out.append(" ");
            write_term(fact, body, out);
            proof {
                assert(out@ =~= old(out)@ + eli(term@));
            }
        },
    }
}

/// Renders a term tree in the canonical notation.
pub struct EliWriter {}

/// Something that can render a term as text, resolving the well-known
/// defaults through a factory.
pub trait TermWriter: Sized {
    /// Make a new writer.
    fn new() -> Self;

    /// Render a term as text.
    fn write(&self, fact: &TermFactory, term: &Arc<Term>) -> String;
}

impl TermWriter for EliWriter {
    fn new() -> (r: Self) {
        EliWriter {}
    }

    /// Render `term` in the canonical notation.
    fn write(&self, fact: &TermFactory, term: &Arc<Term>) -> (r: String)
        ensures
            r@ == eli(term@),
    {
        let mut out = String::new();
        write_term(fact, &**term, &mut out);
        out
    }
}

} // verus!
