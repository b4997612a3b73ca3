use std::cmp::Ordering;
use relision::locus::Locus;
use relision::termfactory::TermFactory;

#[test]
fn locus_ordering_by_shape() {
    let internal = Locus::Internal;
    let console = Locus::Console(0, 0);
    let file = Locus::File("".to_string(), 0, 0);
    assert!(internal < console);
    assert!(console < file);
    assert!(internal < file);
}

#[test]
fn locus_ordering_by_fields() {
    assert!(Locus::Console(1, 2) < Locus::Console(2, 0));
    assert!(Locus::Console(1, 2) < Locus::Console(1, 3));
    assert!(Locus::File("a".to_string(), 9, 9) < Locus::File("b".to_string(), 0, 0));
    assert!(Locus::File("a".to_string(), 1, 9) < Locus::File("a".to_string(), 2, 0));
    assert!(Locus::File("ab".to_string(), 0, 0) < Locus::File("b".to_string(), 0, 0));
    assert!(Locus::File("a".to_string(), 0, 0) < Locus::File("ab".to_string(), 0, 0));
    assert_eq!(
        Locus::File("a".to_string(), 1, 2).partial_cmp(&Locus::File("a".to_string(), 1, 2)),
        Some(Ordering::Equal)
    );
}

#[test]
fn term_ordering_by_variant() {
    let fact = TermFactory::new();
    let root = fact.get_root();
    let sym = fact.new_symbol(Locus::Internal, "A".to_string());
    let s = fact.new_string(Locus::Internal, "A".to_string());
    let b = fact.new_boolean(false);
    assert!(*root < *sym);
    assert!(*sym < *s);
    assert!(*s < *b);
}

#[test]
fn term_ordering_by_fields() {
    let fact = TermFactory::new();
    let a = fact.new_symbol(Locus::Internal, "A".to_string());
    let b = fact.new_symbol(Locus::Internal, "B".to_string());
    assert!(*a < *b);
    assert!(*fact.new_boolean(false) < *fact.new_boolean(true));
    let s1 = fact.new_string(Locus::Internal, "x".to_string());
    let s2 = fact.new_string(Locus::Console(1, 1), "x".to_string());
    // The locus is compared first: internal before console.
    assert!(*s1 < *s2);
    assert_eq!((*a).partial_cmp(&*a), Some(Ordering::Equal));
}

#[test]
fn term_ordering_recurses_into_subterms() {
    let fact = TermFactory::new();
    let a = fact.new_symbol(Locus::Internal, "A".to_string());
    let b = fact.new_symbol(Locus::Internal, "B".to_string());
    let m1 = fact.new_static_map(Locus::Internal, &a, &b);
    let m2 = fact.new_static_map(Locus::Internal, &b, &a);
    assert!(*m1 < *m2);
    let m3 = fact.new_static_map(Locus::Internal, &a, &a);
    assert!(*m3 < *m1);
}
