//! The source position attached to a term.

use vstd::prelude::*;
use vstd::string::*;
use core::cmp::Ordering;
use crate::util::{append_dec, cmp_u32, dec_digits, seq_char_cmp, str_cmp, u32_cmp};

verus! {

/// Where a term came from: built internally, typed at a console, or read
/// from a named source such as a file.  A locus is attached when a term is
/// constructed and never changes afterwards.
#[derive(Debug)]
pub enum Locus {
    /// The term was made by the library itself, not from any input.
    Internal,
    /// An input line without a named source: line and column.
    Console(u32, u32),
    /// A named source such as a file: name, line and column.
    File(String, u32, u32),
}

/// The mathematical value of a [`Locus`]: the same shape, with the source
/// name as a sequence of characters.
#[verifier::ext_equal]
pub enum LocusModel {
    Internal,
    Console { line: u32, column: u32 },
    File { name: Seq<char>, line: u32, column: u32 },
}

impl View for Locus {
    type V = LocusModel;

    open spec fn view(&self) -> LocusModel {
        match self {
            Locus::Internal => LocusModel::Internal,
            Locus::Console(line, column) => LocusModel::Console {
                line: *line,
                column: *column,
            },
            Locus::File(name, line, column) => LocusModel::File {
                name: name@,
                line: *line,
                column: *column,
            },
        }
    }
}

/// The display form of a locus: nothing for an internal locus,
/// `line:column` for a console locus, `name:line:column` for a named
/// source.
pub open spec fn locus_text(l: LocusModel) -> Seq<char> {
    match l {
        LocusModel::Internal => Seq::<char>::empty(),
        LocusModel::Console { line, column } => dec_digits(line as nat) + ":"@ + dec_digits(
            column as nat,
        ),
        LocusModel::File { name, line, column } => name + ":"@ + dec_digits(line as nat) + ":"@
            + dec_digits(column as nat),
    }
}

impl Locus {
    /// The display form of this locus, as [`locus_text`] describes.
    pub fn to_text(&self) -> (r: String)
        ensures
            r@ == locus_text(self@),
    {
        let mut out = String::new();
        match self {
            Locus::Internal => {},
            Locus::Console(line, column) => {
                append_dec(&mut out, *line);
                out.append(":");
                append_dec(&mut out, *column);
            },
            Locus::File(name, line, column) => {
                out.append(name.as_str());
                out.append(":");
                append_dec(&mut out, *line);
                out.append(":");
                append_dec(&mut out, *column);
            },
        }
        proof {
            assert(out@ =~= locus_text(self@));
        }
        out
    }
}

impl Clone for Locus {
    fn clone(&self) -> (res: Locus)
        ensures
            res == *self,
    {
        match self {
            Locus::Internal => Locus::Internal,
            Locus::Console(line, column) => Locus::Console(*line, *column),
            Locus::File(name, line, column) => Locus::File(name.clone(), *line, *column),
        }
    }
}

impl PartialEq for Locus {
    /// Two loci are equal when they have the same shape and the same
    /// coordinates; two named sources must also agree on the name.
    fn eq(&self, other: &Locus) -> (r: bool) {
        match (self, other) {
            (Locus::Internal, Locus::Internal) => true,
            (Locus::Console(l1, c1), Locus::Console(l2, c2)) => *l1 == *l2 && *c1 == *c2,
            (Locus::File(n1, l1, c1), Locus::File(n2, l2, c2)) => {
                *n1 == *n2 && *l1 == *l2 && *c1 == *c2
            },
            _ => false,
        }
    }
}

impl vstd::std_specs::cmp::PartialEqSpecImpl for Locus {
    open spec fn obeys_eq_spec() -> bool {
        true
    }

    open spec fn eq_spec(&self, other: &Locus) -> bool {
        self@ == other@
    }
}

/// The order of two loci: an internal locus before a console locus before
/// a named source; loci of the same shape compare by their fields in
/// order, the source name first.
pub open spec fn locus_cmp_model(a: LocusModel, b: LocusModel) -> Ordering {
    match (a, b) {
        (LocusModel::Internal, LocusModel::Internal) => Ordering::Equal,
        (LocusModel::Internal, _) => Ordering::Less,
        (_, LocusModel::Internal) => Ordering::Greater,
        (
            LocusModel::Console { line: l1, column: c1 },
            LocusModel::Console { line: l2, column: c2 },
        ) => if l1 != l2 {
            u32_cmp(l1, l2)
        } else {
            u32_cmp(c1, c2)
        },
        (LocusModel::Console { .. }, LocusModel::File { .. }) => Ordering::Less,
        (LocusModel::File { .. }, LocusModel::Console { .. }) => Ordering::Greater,
        (
            LocusModel::File { name: n1, line: l1, column: c1 },
            LocusModel::File { name: n2, line: l2, column: c2 },
        ) => if n1 != n2 {
            seq_char_cmp(n1, n2)
        } else if l1 != l2 {
            u32_cmp(l1, l2)
        } else {
            u32_cmp(c1, c2)
        },
    }
}

/// Two loci compare equal in the structural order exactly when they are
/// equal.
pub proof fn lemma_locus_cmp_equal(a: LocusModel, b: LocusModel)
    ensures
        (locus_cmp_model(a, b) == Ordering::Equal) <==> a == b,
{
    match (a, b) {
        (LocusModel::File { name: n1, .. }, LocusModel::File { name: n2, .. }) => {
            crate::util::lemma_seq_char_cmp_equal(n1, n2);
        },
        _ => {},
    }
}

/// Compare two loci, as [`locus_cmp_model`] describes.
pub fn locus_cmp(a: &Locus, b: &Locus) -> (r: Ordering)
    ensures
        r == locus_cmp_model(a@, b@),
{
    match (a, b) {
        (Locus::Internal, Locus::Internal) => Ordering::Equal,
        (Locus::Internal, _) => Ordering::Less,
        (_, Locus::Internal) => Ordering::Greater,
        (Locus::Console(l1, c1), Locus::Console(l2, c2)) => {
            if *l1 != *l2 {
                cmp_u32(*l1, *l2)
            } else {
                cmp_u32(*c1, *c2)
            }
        },
        (Locus::Console(_, _), Locus::File(_, _, _)) => Ordering::Less,
        (Locus::File(_, _, _), Locus::Console(_, _)) => Ordering::Greater,
        (Locus::File(n1, l1, c1), Locus::File(n2, l2, c2)) => {
            let nc = str_cmp(n1.as_str(), n2.as_str());
            proof {
                crate::util::lemma_seq_char_cmp_equal(n1@, n2@);
            }
            match nc {
                Ordering::Equal => {
                    if *l1 != *l2 {
                        cmp_u32(*l1, *l2)
                    } else {
                        cmp_u32(*c1, *c2)
                    }
                },
                _ => nc,
            }
        },
    }
}

impl PartialOrd for Locus {
    /// Structural ordering, consistent with structural equality.
    fn partial_cmp(&self, other: &Locus) -> (r: Option<Ordering>) {
        Some(locus_cmp(self, other))
    }
}

impl vstd::std_specs::cmp::PartialOrdSpecImpl for Locus {
    open spec fn obeys_partial_cmp_spec() -> bool {
        true
    }

    open spec fn partial_cmp_spec(&self, other: &Locus) -> Option<Ordering> {
        Some(locus_cmp_model(self@, other@))
    }
}

} // verus!
