//! The closed algebra of terms.

use vstd::prelude::*;
use vstd::string::*;
use std::sync::Arc;
use core::cmp::Ordering;
use crate::locus::{Locus, LocusModel, locus_cmp, locus_cmp_model, locus_text};
use crate::util::{escape, esc_seq, seq_char_cmp, str_cmp, sym_text};

verus! {

/// A term of the algebra.  Every term except [`Term::Root`] carries a locus
/// and shared references to the terms it is built from; terms are never
/// mutated after construction, so sharing them is safe.
#[derive(Debug)]
#[allow(inconsistent_fields)]
pub enum Term {
    /// The unique term that is its own type.  It carries no payload; its
    /// locus is always internal.
    Root,
    /// A bare-name literal.
    SymbolLiteral { locus: Locus, typ: Arc<Term>, value: String },
    /// A quoted literal.
    StringLiteral { locus: Locus, typ: Arc<Term>, value: String },
    /// A Boolean literal.
    BooleanLiteral { locus: Locus, typ: Arc<Term>, value: bool },
    /// A variable with a name and a guard term.
    Variable { locus: Locus, typ: Arc<Term>, name: String, guard: Arc<Term> },
    /// A function-type-like term from a domain to a codomain.
    StaticMap { locus: Locus, domain: Arc<Term>, codomain: Arc<Term> },
    /// A pair-type-like term.
    StaticProduct { locus: Locus, lhs: Arc<Term>, rhs: Arc<Term> },
    /// An abstraction with a parameter, a body and a guard.  Its type is
    /// computed, not stored.
    Lambda { locus: Locus, param: Arc<Term>, body: Arc<Term>, guard: Arc<Term> },
}

/// The mathematical value of a [`Term`]: the same tree with strings as
/// character sequences and sharing forgotten.
#[verifier::ext_equal]
#[allow(inconsistent_fields)]
pub enum TermModel {
    Root,
    SymbolLiteral { locus: LocusModel, typ: Box<TermModel>, value: Seq<char> },
    StringLiteral { locus: LocusModel, typ: Box<TermModel>, value: Seq<char> },
    BooleanLiteral { locus: LocusModel, typ: Box<TermModel>, value: bool },
    Variable { locus: LocusModel, typ: Box<TermModel>, name: Seq<char>, guard: Box<TermModel> },
    StaticMap { locus: LocusModel, domain: Box<TermModel>, codomain: Box<TermModel> },
    StaticProduct { locus: LocusModel, lhs: Box<TermModel>, rhs: Box<TermModel> },
    Lambda { locus: LocusModel, param: Box<TermModel>, body: Box<TermModel>, guard: Box<TermModel> },
}

/// The model of a term: structural recursion over the tree.
pub open spec fn term_model(t: Term) -> TermModel
    decreases t,
{
    match t {
        Term::Root => TermModel::Root,
        Term::SymbolLiteral { locus, typ, value } => TermModel::SymbolLiteral {
            locus: locus@,
            typ: Box::new(term_model(*typ)),
            value: value@,
        },
        Term::StringLiteral { locus, typ, value } => TermModel::StringLiteral {
            locus: locus@,
            typ: Box::new(term_model(*typ)),
            value: value@,
        },
        Term::BooleanLiteral { locus, typ, value } => TermModel::BooleanLiteral {
            locus: locus@,
            typ: Box::new(term_model(*typ)),
            value,
        },
        Term::Variable { locus, typ, name, guard } => TermModel::Variable {
            locus: locus@,
            typ: Box::new(term_model(*typ)),
            name: name@,
            guard: Box::new(term_model(*guard)),
        },
        Term::StaticMap { locus, domain, codomain } => TermModel::StaticMap {
            locus: locus@,
            domain: Box::new(term_model(*domain)),
            codomain: Box::new(term_model(*codomain)),
        },
        Term::StaticProduct { locus, lhs, rhs } => TermModel::StaticProduct {
            locus: locus@,
            lhs: Box::new(term_model(*lhs)),
            rhs: Box::new(term_model(*rhs)),
        },
        Term::Lambda { locus, param, body, guard } => TermModel::Lambda {
            locus: locus@,
            param: Box::new(term_model(*param)),
            body: Box::new(term_model(*body)),
            guard: Box::new(term_model(*guard)),
        },
    }
}

impl View for Term {
    type V = TermModel;

    open spec fn view(&self) -> TermModel {
        term_model(*self)
    }
}

/// Relies on `Arc::clone` from std: the clone is a new handle to the same
/// allocation, so it carries the same value.
#[verifier::external_body]
pub(crate) fn share(t: &Arc<Term>) -> (r: Arc<Term>)
    ensures
        r == t,
{
    t.clone()
}

/// The canonical shape of a well-known named root term: a symbol literal
/// with the given name, typed by the root term, with an internal locus.
pub open spec fn named_root_model(name: Seq<char>) -> TermModel {
    TermModel::SymbolLiteral {
        locus: LocusModel::Internal,
        typ: Box::new(TermModel::Root),
        value: name,
    }
}

/// The canonical SYMBOL term.
pub open spec fn symbol_model() -> TermModel {
    named_root_model("SYMBOL"@)
}

/// The canonical STRING term.
pub open spec fn string_model() -> TermModel {
    named_root_model("STRING"@)
}

/// The canonical BOOLEAN term.
pub open spec fn boolean_model() -> TermModel {
    named_root_model("BOOLEAN"@)
}

/// The canonical ANY term.
pub open spec fn any_model() -> TermModel {
    named_root_model("ANY"@)
}

/// The canonical MAP term.
pub open spec fn map_model() -> TermModel {
    named_root_model("MAP"@)
}

/// The canonical PRODUCT term.
pub open spec fn product_model() -> TermModel {
    named_root_model("PRODUCT"@)
}

/// The canonical Boolean-true constant: a Boolean literal typed by the
/// canonical BOOLEAN term.
pub open spec fn true_model() -> TermModel {
    TermModel::BooleanLiteral {
        locus: LocusModel::Internal,
        typ: Box::new(boolean_model()),
        value: true,
    }
}

/// The canonical Boolean-false constant.
pub open spec fn false_model() -> TermModel {
    TermModel::BooleanLiteral {
        locus: LocusModel::Internal,
        typ: Box::new(boolean_model()),
        value: false,
    }
}

/// The locus comment that follows a term in the default display: nothing
/// for an internal locus, otherwise the locus between comment markers.
pub open spec fn with_locus_text(l: LocusModel) -> Seq<char> {
    if l == LocusModel::Internal {
        Seq::<char>::empty()
    } else {
        " /* "@ + locus_text(l) + " */"@
    }
}

/// The default display of a term, used for debugging.  Unlike the
/// canonical notation it always shows the type of a string, Boolean or
/// variable, shows a symbol's type unless that type is the root term,
/// elides no guard, and follows every term whose locus is not internal
/// with the locus as a comment.
pub open spec fn term_text(t: TermModel) -> Seq<char>
    decreases t,
{
    match t {
        TermModel::Root => "^ROOT"@,
        TermModel::SymbolLiteral { locus, typ, value } => {
            let base = sym_text(value);
            let with_typ = if *typ == TermModel::Root {
                base
            } else {
                base + ": "@ + term_text(*typ)
            };
            with_typ + with_locus_text(locus)
        },
        TermModel::StringLiteral { locus, typ, value } => "\""@ + esc_seq(value, '"') + "\""@
            + ": "@ + term_text(*typ) + with_locus_text(locus),
        TermModel::BooleanLiteral { locus, typ, value } => (if value {
            "true"@
        } else {
            "false"@
        }) + ": "@ + term_text(*typ) + with_locus_text(locus),
        TermModel::Variable { locus, typ, name, guard } => "$"@ + sym_text(name) + "{"@
            + term_text(*guard) + "}"@ + ": "@ + term_text(*typ) + with_locus_text(locus),
        TermModel::StaticMap { locus, domain, codomain } => term_text(*domain) + " => "@
            + term_text(*codomain) + with_locus_text(locus),
        TermModel::StaticProduct { locus, lhs, rhs } => term_text(*lhs) + " * "@ + term_text(*rhs)
            + with_locus_text(locus),
        TermModel::Lambda { locus, param, body, guard } => term_text(*param) + " ->{"@
            + term_text(*guard) + "} "@ + term_text(*body) + with_locus_text(locus),
    }
}

/// Append the locus comment of the default display to `out`.
fn append_locus_comment(locus: &Locus, out: &mut String)
    ensures
        final(out)@ == old(out)@ + with_locus_text(locus@),
{
    match locus {
        Locus::Internal => {},
        _ => {
            out.append(" /* ");
            let text = locus.to_text();
            out.append(text.as_str());
            out.append(" */");
            proof {
                assert(final(out)@ =~= old(out)@ + with_locus_text(locus@));
            }
        },
    }
}

/// Append the default display of `term` to `out`.
#[verifier::rlimit(100)]
#[verifier::spinoff_prover]
fn append_term_text(term: &Term, out: &mut String)
    ensures
        final(out)@ == old(out)@ + term_text(term@),
    decreases *term,
{
    match term {
        Term::Root => {
            out.append("^ROOT");
        },
        Term::SymbolLiteral { locus, typ, value } => {
            let (escaped, modified) = escape(value, '`');
            if modified {
                out.append("`");
                out.append(escaped.as_str());
                out.append("`");
            } else {
                out.append(escaped.as_str());
            }
            let is_root = match &**typ {
                Term::Root => true,
                _ => false,
            };
            if !is_root {
                out.append(": ");
                append_term_text(typ, out);
            }
            append_locus_comment(locus, out);
            proof {
                assert(out@ =~= old(out)@ + term_text(term@));
            }
        },
        Term::StringLiteral { locus, typ, value } => {
            let (escaped, _) = escape(value, '"');
            out.append("\"");
            out.append(escaped.as_str());
            out.append("\"");
            out.append(": ");
            append_term_text(typ, out);
            append_locus_comment(locus, out);
            proof {
                assert(out@ =~= old(out)@ + term_text(term@));
            }
        },
        Term::BooleanLiteral { locus, typ, value } => {
            if *value {
                out.append("true");
            } else {
                out.append("false");
            }
            out.append(": ");
            append_term_text(typ, out);
            append_locus_comment(locus, out);
            proof {
                assert(out@ =~= old(out)@ + term_text(term@));
            }
        },
        Term::Variable { locus, typ, name, guard } => {
            let (escaped, modified) = escape(name, '`');
            out.append("$");
            if modified {
                out.append("`");
                out.append(escaped.as_str());
                out.append("`");
            } else {
                out.append(escaped.as_str());
            }
            out.append("{");
            append_term_text(guard, out);
            out.append("}");
            out.append(": ");
            append_term_text(typ, out);
            append_locus_comment(locus, out);
            proof {
                assert(out@ =~= old(out)@ + term_text(term@));
            }
        },
        Term::StaticMap { locus, domain, codomain } => {
            append_term_text(domain, out);
            out.append(" => ");
            append_term_text(codomain, out);
            append_locus_comment(locus, out);
            proof {
                assert(out@ =~= old(out)@ + term_text(term@));
            }
        },
        Term::StaticProduct { locus, lhs, rhs } => {
            append_term_text(lhs, out);
            out.append(" * ");
            append_term_text(rhs, out);
            append_locus_comment(locus, out);
            proof {
                assert(out@ =~= old(out)@ + term_text(term@));
            }
        },
        Term::Lambda { locus, param, body, guard } => {
            append_term_text(param, out);
            out.append(" ->{");
            append_term_text(guard, out);
            out.append("} ");
            append_term_text(body, out);
            append_locus_comment(locus, out);
            proof {
                assert(out@ =~= old(out)@ + term_text(term@));
            }
        },
    }
}

impl Term {
    /// The default display of this term, as [`term_text`] describes.
    pub fn to_text(&self) -> (r: String)
        ensures
            r@ == term_text(self@),
    {
        let mut out = String::new();
        append_term_text(self, &mut out);
        out
    }
}

/// Structural equality of two term trees.
pub fn term_eq(a: &Term, b: &Term) -> (r: bool)
    ensures
        r == (a@ == b@),
    decreases *a,
{
    match (a, b) {
        (Term::Root, Term::Root) => true,
        (
            Term::SymbolLiteral { locus: l1, typ: t1, value: v1 },
            Term::SymbolLiteral { locus: l2, typ: t2, value: v2 },
        ) => *l1 == *l2 && term_eq(&**t1, &**t2) && *v1 == *v2,
        (
            Term::StringLiteral { locus: l1, typ: t1, value: v1 },
            Term::StringLiteral { locus: l2, typ: t2, value: v2 },
        ) => *l1 == *l2 && term_eq(&**t1, &**t2) && *v1 == *v2,
        (
            Term::BooleanLiteral { locus: l1, typ: t1, value: v1 },
            Term::BooleanLiteral { locus: l2, typ: t2, value: v2 },
        ) => *l1 == *l2 && term_eq(&**t1, &**t2) && *v1 == *v2,
        (
            Term::Variable { locus: l1, typ: t1, name: n1, guard: g1 },
            Term::Variable { locus: l2, typ: t2, name: n2, guard: g2 },
        ) => *l1 == *l2 && term_eq(&**t1, &**t2) && *n1 == *n2 && term_eq(&**g1, &**g2),
        (
            Term::StaticMap { locus: l1, domain: d1, codomain: c1 },
            Term::StaticMap { locus: l2, domain: d2, codomain: c2 },
        ) => *l1 == *l2 && term_eq(&**d1, &**d2) && term_eq(&**c1, &**c2),
        (
            Term::StaticProduct { locus: l1, lhs: a1, rhs: b1 },
            Term::StaticProduct { locus: l2, lhs: a2, rhs: b2 },
        ) => *l1 == *l2 && term_eq(&**a1, &**a2) && term_eq(&**b1, &**b2),
        (
            Term::Lambda { locus: l1, param: p1, body: b1, guard: g1 },
            Term::Lambda { locus: l2, param: p2, body: b2, guard: g2 },
        ) => *l1 == *l2 && term_eq(&**p1, &**p2) && term_eq(&**b1, &**b2) && term_eq(&**g1, &**g2),
        _ => false,
    }
}

impl PartialEq for Term {
    /// Structural equality across the whole tree, safe because the term
    /// graph is acyclic.
    fn eq(&self, other: &Term) -> (r: bool) {
        term_eq(self, other)
    }
}

impl vstd::std_specs::cmp::PartialEqSpecImpl for Term {
    open spec fn obeys_eq_spec() -> bool {
        true
    }

    open spec fn eq_spec(&self, other: &Term) -> bool {
        self@ == other@
    }
}

/// The rank of a term's variant, in declaration order.
pub open spec fn term_rank(t: TermModel) -> int {
    match t {
        TermModel::Root => 0,
        TermModel::SymbolLiteral { .. } => 1,
        TermModel::StringLiteral { .. } => 2,
        TermModel::BooleanLiteral { .. } => 3,
        TermModel::Variable { .. } => 4,
        TermModel::StaticMap { .. } => 5,
        TermModel::StaticProduct { .. } => 6,
        TermModel::Lambda { .. } => 7,
    }
}

/// The order of two Boolean values: false before true.
pub open spec fn bool_cmp(a: bool, b: bool) -> Ordering {
    if a == b {
        Ordering::Equal
    } else if !a {
        Ordering::Less
    } else {
        Ordering::Greater
    }
}

/// Structural ordering of two term trees: terms of different variants
/// compare by variant rank; terms of the same variant compare by their
/// fields in declaration order, the locus first, sub-terms recursively and
/// strings lexicographically.
pub open spec fn term_cmp_model(a: TermModel, b: TermModel) -> Ordering
    decreases a,
{
    match (a, b) {
        (TermModel::Root, TermModel::Root) => Ordering::Equal,
        (
            TermModel::SymbolLiteral { locus: l1, typ: t1, value: v1 },
            TermModel::SymbolLiteral { locus: l2, typ: t2, value: v2 },
        ) => if locus_cmp_model(l1, l2) != Ordering::Equal {
            locus_cmp_model(l1, l2)
        } else if term_cmp_model(*t1, *t2) != Ordering::Equal {
            term_cmp_model(*t1, *t2)
        } else {
            seq_char_cmp(v1, v2)
        },
        (
            TermModel::StringLiteral { locus: l1, typ: t1, value: v1 },
            TermModel::StringLiteral { locus: l2, typ: t2, value: v2 },
        ) => if locus_cmp_model(l1, l2) != Ordering::Equal {
            locus_cmp_model(l1, l2)
        } else if term_cmp_model(*t1, *t2) != Ordering::Equal {
            term_cmp_model(*t1, *t2)
        } else {
            seq_char_cmp(v1, v2)
        },
        (
            TermModel::BooleanLiteral { locus: l1, typ: t1, value: v1 },
            TermModel::BooleanLiteral { locus: l2, typ: t2, value: v2 },
        ) => if locus_cmp_model(l1, l2) != Ordering::Equal {
            locus_cmp_model(l1, l2)
        } else if term_cmp_model(*t1, *t2) != Ordering::Equal {
            term_cmp_model(*t1, *t2)
        } else {
            bool_cmp(v1, v2)
        },
        (
            TermModel::Variable { locus: l1, typ: t1, name: n1, guard: g1 },
            TermModel::Variable { locus: l2, typ: t2, name: n2, guard: g2 },
        ) => if locus_cmp_model(l1, l2) != Ordering::Equal {
            locus_cmp_model(l1, l2)
        } else if term_cmp_model(*t1, *t2) != Ordering::Equal {
            term_cmp_model(*t1, *t2)
        } else if seq_char_cmp(n1, n2) != Ordering::Equal {
            seq_char_cmp(n1, n2)
        } else {
            term_cmp_model(*g1, *g2)
        },
        (
            TermModel::StaticMap { locus: l1, domain: d1, codomain: c1 },
            TermModel::StaticMap { locus: l2, domain: d2, codomain: c2 },
        ) => if locus_cmp_model(l1, l2) != Ordering::Equal {
            locus_cmp_model(l1, l2)
        } else if term_cmp_model(*d1, *d2) != Ordering::Equal {
            term_cmp_model(*d1, *d2)
        } else {
            term_cmp_model(*c1, *c2)
        },
        (
            TermModel::StaticProduct { locus: l1, lhs: a1, rhs: b1 },
            TermModel::StaticProduct { locus: l2, lhs: a2, rhs: b2 },
        ) => if locus_cmp_model(l1, l2) != Ordering::Equal {
            locus_cmp_model(l1, l2)
        } else if term_cmp_model(*a1, *a2) != Ordering::Equal {
            term_cmp_model(*a1, *a2)
        } else {
            term_cmp_model(*b1, *b2)
        },
        (
            TermModel::Lambda { locus: l1, param: p1, body: b1, guard: g1 },
            TermModel::Lambda { locus: l2, param: p2, body: b2, guard: g2 },
        ) => if locus_cmp_model(l1, l2) != Ordering::Equal {
            locus_cmp_model(l1, l2)
        } else if term_cmp_model(*p1, *p2) != Ordering::Equal {
            term_cmp_model(*p1, *p2)
        } else if term_cmp_model(*b1, *b2) != Ordering::Equal {
            term_cmp_model(*b1, *b2)
        } else {
            term_cmp_model(*g1, *g2)
        },
        _ => if term_rank(a) < term_rank(b) {
            Ordering::Less
        } else {
            Ordering::Greater
        },
    }
}

/// Two terms compare equal in the structural order exactly when they are
/// equal: the ordering is consistent with structural equality.
pub proof fn lemma_term_cmp_equal(a: TermModel, b: TermModel)
    ensures
        (term_cmp_model(a, b) == Ordering::Equal) <==> a == b,
    decreases a,
{
    match (a, b) {
        (
            TermModel::SymbolLiteral { locus: l1, typ: t1, value: v1 },
            TermModel::SymbolLiteral { locus: l2, typ: t2, value: v2 },
        ) => {
            crate::locus::lemma_locus_cmp_equal(l1, l2);
            lemma_term_cmp_equal(*t1, *t2);
            crate::util::lemma_seq_char_cmp_equal(v1, v2);
        },
        (
            TermModel::StringLiteral { locus: l1, typ: t1, value: v1 },
            TermModel::StringLiteral { locus: l2, typ: t2, value: v2 },
        ) => {
            crate::locus::lemma_locus_cmp_equal(l1, l2);
            lemma_term_cmp_equal(*t1, *t2);
            crate::util::lemma_seq_char_cmp_equal(v1, v2);
        },
        (
            TermModel::BooleanLiteral { locus: l1, typ: t1, .. },
            TermModel::BooleanLiteral { locus: l2, typ: t2, .. },
        ) => {
            crate::locus::lemma_locus_cmp_equal(l1, l2);
            lemma_term_cmp_equal(*t1, *t2);
        },
        (
            TermModel::Variable { locus: l1, typ: t1, name: n1, guard: g1 },
            TermModel::Variable { locus: l2, typ: t2, name: n2, guard: g2 },
        ) => {
            crate::locus::lemma_locus_cmp_equal(l1, l2);
            lemma_term_cmp_equal(*t1, *t2);
            crate::util::lemma_seq_char_cmp_equal(n1, n2);
            lemma_term_cmp_equal(*g1, *g2);
        },
        (
            TermModel::StaticMap { locus: l1, domain: d1, codomain: c1 },
            TermModel::StaticMap { locus: l2, domain: d2, codomain: c2 },
        ) => {
            crate::locus::lemma_locus_cmp_equal(l1, l2);
            lemma_term_cmp_equal(*d1, *d2);
            lemma_term_cmp_equal(*c1, *c2);
        },
        (
            TermModel::StaticProduct { locus: l1, lhs: a1, rhs: b1 },
            TermModel::StaticProduct { locus: l2, lhs: a2, rhs: b2 },
        ) => {
            crate::locus::lemma_locus_cmp_equal(l1, l2);
            lemma_term_cmp_equal(*a1, *a2);
            lemma_term_cmp_equal(*b1, *b2);
        },
        (
            TermModel::Lambda { locus: l1, param: p1, body: b1, guard: g1 },
            TermModel::Lambda { locus: l2, param: p2, body: b2, guard: g2 },
        ) => {
            crate::locus::lemma_locus_cmp_equal(l1, l2);
            lemma_term_cmp_equal(*p1, *p2);
            lemma_term_cmp_equal(*b1, *b2);
            lemma_term_cmp_equal(*g1, *g2);
        },
        _ => {},
    }
}

/// The rank of a term's variant, in declaration order.
fn term_rank_of(t: &Term) -> (r: u8)
    ensures
        r as int == term_rank(t@),
{
    match t {
        Term::Root => 0,
        Term::SymbolLiteral { .. } => 1,
        Term::StringLiteral { .. } => 2,
        Term::BooleanLiteral { .. } => 3,
        Term::Variable { .. } => 4,
        Term::StaticMap { .. } => 5,
        Term::StaticProduct { .. } => 6,
        Term::Lambda { .. } => 7,
    }
}

/// Compare two term trees structurally, as [`term_cmp_model`] describes.
#[verifier::rlimit(100)]
#[verifier::spinoff_prover]
pub fn term_cmp(a: &Term, b: &Term) -> (r: Ordering)
    ensures
        r == term_cmp_model(a@, b@),
    decreases *a,
{
    match (a, b) {
        (Term::Root, Term::Root) => Ordering::Equal,
        (
            Term::SymbolLiteral { locus: l1, typ: t1, value: v1 },
            Term::SymbolLiteral { locus: l2, typ: t2, value: v2 },
        ) => {
            let lc = locus_cmp(l1, l2);
            if !matches!(lc, Ordering::Equal) {
                return lc;
            }
            let tc = term_cmp(&**t1, &**t2);
            if !matches!(tc, Ordering::Equal) {
                return tc;
            }
            str_cmp(v1.as_str(), v2.as_str())
        },
        (
            Term::StringLiteral { locus: l1, typ: t1, value: v1 },
            Term::StringLiteral { locus: l2, typ: t2, value: v2 },
        ) => {
            let lc = locus_cmp(l1, l2);
            if !matches!(lc, Ordering::Equal) {
                return lc;
            }
            let tc = term_cmp(&**t1, &**t2);
            if !matches!(tc, Ordering::Equal) {
                return tc;
            }
            str_cmp(v1.as_str(), v2.as_str())
        },
        (
            Term::BooleanLiteral { locus: l1, typ: t1, value: v1 },
            Term::BooleanLiteral { locus: l2, typ: t2, value: v2 },
        ) => {
            let lc = locus_cmp(l1, l2);
            if !matches!(lc, Ordering::Equal) {
                return lc;
            }
            let tc = term_cmp(&**t1, &**t2);
            if !matches!(tc, Ordering::Equal) {
                return tc;
            }
            if *v1 == *v2 {
                Ordering::Equal
            } else if !*v1 {
                Ordering::Less
            } else {
                Ordering::Greater
            }
        },
        (
            Term::Variable { locus: l1, typ: t1, name: n1, guard: g1 },
            Term::Variable { locus: l2, typ: t2, name: n2, guard: g2 },
        ) => {
            let lc = locus_cmp(l1, l2);
            if !matches!(lc, Ordering::Equal) {
                return lc;
            }
            let tc = term_cmp(&**t1, &**t2);
            if !matches!(tc, Ordering::Equal) {
                return tc;
            }
            let nc = str_cmp(n1.as_str(), n2.as_str());
            if !matches!(nc, Ordering::Equal) {
                return nc;
            }
            term_cmp(&**g1, &**g2)
        },
        (
            Term::StaticMap { locus: l1, domain: d1, codomain: c1 },
            Term::StaticMap { locus: l2, domain: d2, codomain: c2 },
        ) => {
            let lc = locus_cmp(l1, l2);
            if !matches!(lc, Ordering::Equal) {
                return lc;
            }
            let dc = term_cmp(&**d1, &**d2);
            if !matches!(dc, Ordering::Equal) {
                return dc;
            }
            term_cmp(&**c1, &**c2)
        },
        (
            Term::StaticProduct { locus: l1, lhs: a1, rhs: b1 },
            Term::StaticProduct { locus: l2, lhs: a2, rhs: b2 },
        ) => {
            let lc = locus_cmp(l1, l2);
            if !matches!(lc, Ordering::Equal) {
                return lc;
            }
            let ac = term_cmp(&**a1, &**a2);
            if !matches!(ac, Ordering::Equal) {
                return ac;
            }
            term_cmp(&**b1, &**b2)
        },
        (
            Term::Lambda { locus: l1, param: p1, body: b1, guard: g1 },
            Term::Lambda { locus: l2, param: p2, body: b2, guard: g2 },
        ) => {
            let lc = locus_cmp(l1, l2);
            if !matches!(lc, Ordering::Equal) {
                return lc;
            }
            let pc = term_cmp(&**p1, &**p2);
            if !matches!(pc, Ordering::Equal) {
                return pc;
            }
            let bc = term_cmp(&**b1, &**b2);
            if !matches!(bc, Ordering::Equal) {
                return bc;
            }
            term_cmp(&**g1, &**g2)
        },
        _ => {
            let ra = term_rank_of(a);
            let rb = term_rank_of(b);
            if ra < rb {
                Ordering::Less
            } else {
                Ordering::Greater
            }
        },
    }
}

impl PartialOrd for Term {
    /// Structural ordering across the whole tree, consistent with
    /// structural equality.
    fn partial_cmp(&self, other: &Term) -> (r: Option<Ordering>) {
        Some(term_cmp(self, other))
    }
}

impl vstd::std_specs::cmp::PartialOrdSpecImpl for Term {
    open spec fn obeys_partial_cmp_spec() -> bool {
        true
    }

    open spec fn partial_cmp_spec(&self, other: &Term) -> Option<Ordering> {
        Some(term_cmp_model(self@, other@))
    }
}

} // verus!
