//! The factory that builds terms and owns the canonical well-known instances.

use vstd::prelude::*;
use vstd::string::*;
use std::sync::Arc;
use crate::locus::{Locus, LocusModel};
use crate::term::{
    Term, TermModel, named_root_model, symbol_model, string_model, boolean_model, any_model,
    map_model, product_model, true_model, false_model, share,
};

verus! {

/// Is `name` the name of one of the thirteen canonical root terms?
pub open spec fn is_named_root(name: Seq<char>) -> bool {
    ||| name == "ROOT"@
    ||| name == "SYMBOL"@
    ||| name == "STRING"@
    ||| name == "INTEGER"@
    ||| name == "FLOAT"@
    ||| name == "BIT_STRING"@
    ||| name == "BOOLEAN"@
    ||| name == "ANY"@
    ||| name == "NONE"@
    ||| name == "MAP"@
    ||| name == "PRODUCT"@
    ||| name == "SPECIAL_FORM"@
    ||| name == "PROPERTIES"@
}

/// The canonical term registered under `name`: the root term itself for
/// `ROOT`, otherwise the well-known symbol of that name typed by the root.
pub open spec fn named_root_lookup(name: Seq<char>) -> TermModel {
    if name == "ROOT"@ {
        TermModel::Root
    } else {
        named_root_model(name)
    }
}

/// The type of a term.  The root term is its own type; literals and
/// variables carry their type; a static map or product is of the well-known
/// MAP or PRODUCT kind; the type of a lambda is the product of the types of
/// its parameter and its body.
pub open spec fn type_model(t: TermModel) -> TermModel
    decreases t,
{
    match t {
        TermModel::Root => TermModel::Root,
        TermModel::SymbolLiteral { typ, .. } => *typ,
        TermModel::StringLiteral { typ, .. } => *typ,
        TermModel::BooleanLiteral { typ, .. } => *typ,
        TermModel::Variable { typ, .. } => *typ,
        TermModel::StaticMap { .. } => map_model(),
        TermModel::StaticProduct { .. } => product_model(),
        TermModel::Lambda { param, body, .. } => TermModel::StaticProduct {
            locus: LocusModel::Internal,
            lhs: Box::new(type_model(*param)),
            rhs: Box::new(type_model(*body)),
        },
    }
}

/// The locus stored in a term; internal for the root term.
pub open spec fn locus_model(t: TermModel) -> LocusModel {
    match t {
        TermModel::Root => LocusModel::Internal,
        TermModel::SymbolLiteral { locus, .. } => locus,
        TermModel::StringLiteral { locus, .. } => locus,
        TermModel::BooleanLiteral { locus, .. } => locus,
        TermModel::Variable { locus, .. } => locus,
        TermModel::StaticMap { locus, .. } => locus,
        TermModel::StaticProduct { locus, .. } => locus,
        TermModel::Lambda { locus, .. } => locus,
    }
}

/// The root term is its own type.
pub proof fn lemma_root_is_its_own_type()
    ensures
        type_model(TermModel::Root) == TermModel::Root,
{
}

/// The type of a lambda is the static product of the types of its
/// parameter and its body, with an internal locus.  The product is equal
/// in value to any other product of those types, whether or not the two
/// are the same allocation.
pub proof fn lemma_lambda_type(
    locus: LocusModel,
    param: TermModel,
    body: TermModel,
    guard: TermModel,
)
    ensures
        type_model(
            TermModel::Lambda {
                locus,
                param: Box::new(param),
                body: Box::new(body),
                guard: Box::new(guard),
            },
        ) == (TermModel::StaticProduct {
            locus: LocusModel::Internal,
            lhs: Box::new(type_model(param)),
            rhs: Box::new(type_model(body)),
        }),
{
}

/// Builds terms and canonicalizes the well-known instances: within one
/// factory there is exactly one shared instance of the root term, of each
/// named root term and of each Boolean constant.
pub struct TermFactory {
    /// The root term.
    the_root: Arc<Term>,
    /// The SYMBOL type.
    the_symbol: Arc<Term>,
    /// The STRING type.
    the_string: Arc<Term>,
    /// The INTEGER type.
    the_integer: Arc<Term>,
    /// The FLOAT type.
    the_float: Arc<Term>,
    /// The BIT_STRING type.
    the_bit_string: Arc<Term>,
    /// The BOOLEAN type.
    the_boolean: Arc<Term>,
    /// The ANY type.
    the_any: Arc<Term>,
    /// The NONE type.
    the_none: Arc<Term>,
    /// The MAP type.
    the_map: Arc<Term>,
    /// The PRODUCT type.
    the_product: Arc<Term>,
    /// The SPECIAL_FORM type.
    the_special_form: Arc<Term>,
    /// The PROPERTIES type.
    the_properties: Arc<Term>,
    /// The Boolean true constant.
    is_true: Arc<Term>,
    /// The Boolean false constant.
    is_false: Arc<Term>,
}

impl TermFactory {
    /// Every canonical field holds exactly the canonical value of its name.
    #[verifier::type_invariant]
    spec fn wf(&self) -> bool {
        &&& self.the_root@ == TermModel::Root
        &&& self.the_symbol@ == symbol_model()
        &&& self.the_string@ == string_model()
        &&& self.the_integer@ == named_root_model("INTEGER"@)
        &&& self.the_float@ == named_root_model("FLOAT"@)
        &&& self.the_bit_string@ == named_root_model("BIT_STRING"@)
        &&& self.the_boolean@ == boolean_model()
        &&& self.the_any@ == any_model()
        &&& self.the_none@ == named_root_model("NONE"@)
        &&& self.the_map@ == map_model()
        &&& self.the_product@ == product_model()
        &&& self.the_special_form@ == named_root_model("SPECIAL_FORM"@)
        &&& self.the_properties@ == named_root_model("PROPERTIES"@)
        &&& self.is_true@ == true_model()
        &&& self.is_false@ == false_model()
    }

    /// Construct a factory: the root term, the twelve well-known symbols
    /// typed by it, and the two Boolean constants typed by BOOLEAN.
    pub fn new() -> TermFactory {
        let root = Arc::new(Term::Root);
        let symbol = Arc::new(Term::SymbolLiteral {
            locus: Locus::Internal,
            typ: share(&root),
            value: String::from_str("SYMBOL"),
        });
        let string = Arc::new(Term::SymbolLiteral {
            locus: Locus::Internal,
            typ: share(&root),
            value: String::from_str("STRING"),
        });
        let integer = Arc::new(Term::SymbolLiteral {
            locus: Locus::Internal,
            typ: share(&root),
            value: String::from_str("INTEGER"),
        });
        let float = Arc::new(Term::SymbolLiteral {
            locus: Locus::Internal,
            typ: share(&root),
            value: String::from_str("FLOAT"),
        });
        let bit_string = Arc::new(Term::SymbolLiteral {
            locus: Locus::Internal,
            typ: share(&root),
            value: String::from_str("BIT_STRING"),
        });
        let boolean = Arc::new(Term::SymbolLiteral {
            locus: Locus::Internal,
            typ: share(&root),
            value: String::from_str("BOOLEAN"),
        });
        let any = Arc::new(Term::SymbolLiteral {
            locus: Locus::Internal,
            typ: share(&root),
            value: String::from_str("ANY"),
        });
        let none = Arc::new(Term::SymbolLiteral {
            locus: Locus::Internal,
            typ: share(&root),
            value: String::from_str("NONE"),
        });
        let map = Arc::new(Term::SymbolLiteral {
            locus: Locus::Internal,
            typ: share(&root),
            value: String::from_str("MAP"),
        });
        let product = Arc::new(Term::SymbolLiteral {
            locus: Locus::Internal,
            typ: share(&root),
            value: String::from_str("PRODUCT"),
        });
        let special_form = Arc::new(Term::SymbolLiteral {
            locus: Locus::Internal,
            typ: share(&root),
            value: String::from_str("SPECIAL_FORM"),
        });
        let properties = Arc::new(Term::SymbolLiteral {
            locus: Locus::Internal,
            typ: share(&root),
            value: String::from_str("PROPERTIES"),
        });
        let is_true = Arc::new(Term::BooleanLiteral {
            locus: Locus::Internal,
            typ: share(&boolean),
            value: true,
        });
        let is_false = Arc::new(Term::BooleanLiteral {
            locus: Locus::Internal,
            typ: share(&boolean),
            value: false,
        });
        TermFactory {
            the_root: root,
            the_symbol: symbol,
            the_string: string,
            the_integer: integer,
            the_float: float,
            the_bit_string: bit_string,
            the_boolean: boolean,
            the_any: any,
            the_none: none,
            the_map: map,
            the_product: product,
            the_special_form: special_form,
            the_properties: properties,
            is_true,
            is_false,
        }
    }

    /// Look a named root term up by its exact name; absence is not an error.
    pub fn get_named_root_term(&self, name: &String) -> (r: Option<Arc<Term>>)
        ensures
            match r {
                Some(t) => is_named_root(name@) && t@ == named_root_lookup(name@),
                None => !is_named_root(name@),
            },
    {
        proof {
            use_type_invariant(self);
        }
        let n = name.as_str();
        if crate::util::str_eq(n, "ROOT") {
            Some(share(&self.the_root))
        } else if crate::util::str_eq(n, "SYMBOL") {
            Some(share(&self.the_symbol))
        } else if crate::util::str_eq(n, "STRING") {
            Some(share(&self.the_string))
        } else if crate::util::str_eq(n, "INTEGER") {
            Some(share(&self.the_integer))
        } else if crate::util::str_eq(n, "FLOAT") {
            Some(share(&self.the_float))
        } else if crate::util::str_eq(n, "BIT_STRING") {
            Some(share(&self.the_bit_string))
        } else if crate::util::str_eq(n, "BOOLEAN") {
            Some(share(&self.the_boolean))
        } else if crate::util::str_eq(n, "ANY") {
            Some(share(&self.the_any))
        } else if crate::util::str_eq(n, "NONE") {
            Some(share(&self.the_none))
        } else if crate::util::str_eq(n, "MAP") {
            Some(share(&self.the_map))
        } else if crate::util::str_eq(n, "PRODUCT") {
            Some(share(&self.the_product))
        } else if crate::util::str_eq(n, "SPECIAL_FORM") {
            Some(share(&self.the_special_form))
        } else if crate::util::str_eq(n, "PROPERTIES") {
            Some(share(&self.the_properties))
        } else {
            None
        }
    }

    /// Is `name` registered as a named root term?
    pub fn is_named_root_term(&self, name: &String) -> (r: bool)
        ensures
            r == is_named_root(name@),
    {
        let n = name.as_str();
        crate::util::str_eq(n, "ROOT") || crate::util::str_eq(n, "SYMBOL") || crate::util::str_eq(
            n,
            "STRING",
        ) || crate::util::str_eq(n, "INTEGER") || crate::util::str_eq(n, "FLOAT")
            || crate::util::str_eq(n, "BIT_STRING") || crate::util::str_eq(n, "BOOLEAN")
            || crate::util::str_eq(n, "ANY") || crate::util::str_eq(n, "NONE")
            || crate::util::str_eq(n, "MAP") || crate::util::str_eq(n, "PRODUCT")
            || crate::util::str_eq(n, "SPECIAL_FORM") || crate::util::str_eq(n, "PROPERTIES")
    }

    /// The canonical root term.
    pub fn get_root(&self) -> (r: Arc<Term>)
        ensures
            r@ == TermModel::Root,
    {
        proof {
            use_type_invariant(self);
        }
        share(&self.the_root)
    }

    /// The canonical ANY term.
    pub fn get_any(&self) -> (r: Arc<Term>)
        ensures
            r@ == any_model(),
    {
        proof {
            use_type_invariant(self);
        }
        share(&self.the_any)
    }

    /// The canonical NONE term.
    pub fn get_none(&self) -> (r: Arc<Term>)
        ensures
            r@ == named_root_model("NONE"@),
    {
        proof {
            use_type_invariant(self);
        }
        share(&self.the_none)
    }

    /// The canonical STRING term.
    pub fn get_string(&self) -> (r: Arc<Term>)
        ensures
            r@ == string_model(),
    {
        proof {
            use_type_invariant(self);
        }
        share(&self.the_string)
    }

    /// A new string literal with the default STRING type.
    pub fn new_string(&self, locus: Locus, value: String) -> (r: Arc<Term>)
        ensures
            r@ == (TermModel::StringLiteral {
                locus: locus@,
                typ: Box::new(string_model()),
                value: value@,
            }),
    {
        proof {
            use_type_invariant(self);
        }
        Arc::new(Term::StringLiteral { locus, typ: share(&self.the_string), value })
    }

    /// A new string literal with a caller-chosen type.
    pub fn new_typed_string(&self, locus: Locus, value: String, typ: Arc<Term>) -> (r: Arc<Term>)
        ensures
            r@ == (TermModel::StringLiteral {
                locus: locus@,
                typ: Box::new(typ@),
                value: value@,
            }),
    {
        Arc::new(Term::StringLiteral { locus, typ, value })
    }

    /// The canonical SYMBOL term.
    pub fn get_symbol(&self) -> (r: Arc<Term>)
        ensures
            r@ == symbol_model(),
    {
        proof {
            use_type_invariant(self);
        }
        share(&self.the_symbol)
    }

    /// A new symbol literal with the default SYMBOL type.
    pub fn new_symbol(&self, locus: Locus, value: String) -> (r: Arc<Term>)
        ensures
            r@ == (TermModel::SymbolLiteral {
                locus: locus@,
                typ: Box::new(symbol_model()),
                value: value@,
            }),
    {
        proof {
            use_type_invariant(self);
        }
        Arc::new(Term::SymbolLiteral { locus, typ: share(&self.the_symbol), value })
    }

    /// A new symbol literal with a caller-chosen type.
    pub fn new_typed_symbol(&self, locus: Locus, value: String, typ: Arc<Term>) -> (r: Arc<Term>)
        ensures
            r@ == (TermModel::SymbolLiteral {
                locus: locus@,
                typ: Box::new(typ@),
                value: value@,
            }),
    {
        Arc::new(Term::SymbolLiteral { locus, typ, value })
    }

    /// The canonical BOOLEAN term.
    pub fn get_boolean(&self) -> (r: Arc<Term>)
        ensures
            r@ == boolean_model(),
    {
        proof {
            use_type_invariant(self);
        }
        share(&self.the_boolean)
    }

    /// The canonical Boolean constant for `value`: always the shared
    /// instance, never a new allocation.
    pub fn new_boolean(&self, value: bool) -> (r: Arc<Term>)
        ensures
            r@ == if value {
                true_model()
            } else {
                false_model()
            },
    {
        proof {
            use_type_invariant(self);
        }
        if value {
            share(&self.is_true)
        } else {
            share(&self.is_false)
        }
    }

    /// A fresh Boolean literal with a caller-chosen type; such a term is
    /// deliberately not canonical.
    pub fn new_typed_boolean(&self, locus: Locus, value: bool, typ: Arc<Term>) -> (r: Arc<Term>)
        ensures
            r@ == (TermModel::BooleanLiteral { locus: locus@, typ: Box::new(typ@), value }),
    {
        Arc::new(Term::BooleanLiteral { locus, typ, value })
    }

    /// A new variable.
    pub fn new_variable(&self, locus: Locus, typ: &Arc<Term>, name: String, guard: &Arc<Term>) -> (r:
        Arc<Term>)
        ensures
            r@ == (TermModel::Variable {
                locus: locus@,
                typ: Box::new(typ@),
                name: name@,
                guard: Box::new(guard@),
            }),
    {
        Arc::new(Term::Variable { locus, typ: share(typ), name, guard: share(guard) })
    }

    /// A new static map from `domain` to `codomain`.
    pub fn new_static_map(&self, locus: Locus, domain: &Arc<Term>, codomain: &Arc<Term>) -> (r: Arc<
        Term>)
        ensures
            r@ == (TermModel::StaticMap {
                locus: locus@,
                domain: Box::new(domain@),
                codomain: Box::new(codomain@),
            }),
    {
        Arc::new(Term::StaticMap { locus, domain: share(domain), codomain: share(codomain) })
    }

    /// A new static product of `lhs` and `rhs`.
    pub fn new_static_product(&self, locus: Locus, lhs: &Arc<Term>, rhs: &Arc<Term>) -> (r: Arc<
        Term>)
        ensures
            r@ == (TermModel::StaticProduct {
                locus: locus@,
                lhs: Box::new(lhs@),
                rhs: Box::new(rhs@),
            }),
    {
        Arc::new(Term::StaticProduct { locus, lhs: share(lhs), rhs: share(rhs) })
    }

    /// A new lambda.
    pub fn new_lambda(&self, locus: Locus, param: &Arc<Term>, body: &Arc<Term>, guard: &Arc<Term>)
        -> (r: Arc<Term>)
        ensures
            r@ == (TermModel::Lambda {
                locus: locus@,
                param: Box::new(param@),
                body: Box::new(body@),
                guard: Box::new(guard@),
            }),
    {
        Arc::new(Term::Lambda {
            locus,
            param: share(param),
            body: share(body),
            guard: share(guard),
        })
    }

    /// The type of `term`, as [`type_model`] describes.  For a lambda the
    /// product is built afresh on every call; it is equal in value, not
    /// shared, with the result of earlier calls.
    pub fn get_type(&self, term: &Arc<Term>) -> (r: Arc<Term>)
        ensures
            r@ == type_model(term@),
        decreases **term,
    {
        match &**term {
            Term::Root => Arc::new(Term::Root),
            Term::SymbolLiteral { typ, .. } => share(typ),
            Term::StringLiteral { typ, .. } => share(typ),
            Term::BooleanLiteral { typ, .. } => share(typ),
            Term::Variable { typ, .. } => share(typ),
            Term::StaticMap { .. } => {
                proof {
                    use_type_invariant(self);
                }
                share(&self.the_map)
            },
            Term::StaticProduct { .. } => {
                proof {
                    use_type_invariant(self);
                }
                share(&self.the_product)
            },
            Term::Lambda { param, body, .. } => {
                let lhs = self.get_type(param);
                let rhs = self.get_type(body);
                self.new_static_product(Locus::Internal, &lhs, &rhs)
            },
        }
    }

    /// The locus stored in `term`; internal for the root term.
    pub fn get_locus(&self, term: &Arc<Term>) -> (r: Locus)
        ensures
            r@ == locus_model(term@),
    {
        match &**term {
            Term::Root => Locus::Internal,
            Term::SymbolLiteral { locus, .. } => locus.clone(),
            Term::StringLiteral { locus, .. } => locus.clone(),
            Term::BooleanLiteral { locus, .. } => locus.clone(),
            Term::Variable { locus, .. } => locus.clone(),
            Term::StaticMap { locus, .. } => locus.clone(),
            Term::StaticProduct { locus, .. } => locus.clone(),
            Term::Lambda { locus, .. } => locus.clone(),
        }
    }
}

} // verus!
