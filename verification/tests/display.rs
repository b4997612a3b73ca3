use relision::locus::Locus;
use relision::termfactory::TermFactory;

#[test]
fn locus_text_forms() {
    assert_eq!(Locus::Internal.to_text(), "");
    assert_eq!(Locus::Console(9, 21).to_text(), "9:21");
    assert_eq!(
        Locus::File("brenda.eli".to_string(), 9, 21).to_text(),
        "brenda.eli:9:21"
    );
    assert_eq!(Locus::Console(0, 100).to_text(), "0:100");
}

#[test]
fn locus_equality_is_structural() {
    let a = Locus::File("brenda.eli".to_string(), 9, 21);
    let b = Locus::File("brenda.eli".to_string(), 9, 21);
    let c = Locus::Console(9, 21);
    assert_eq!(a, b);
    assert_ne!(a, c);
    assert_ne!(c, Locus::Console(9, 22));
    assert_ne!(a, Locus::File("other.eli".to_string(), 9, 21));
}

#[test]
fn locus_clone_preserves_value() {
    let a = Locus::File("brenda.eli".to_string(), 9, 21);
    assert_eq!(a.clone(), a);
}

#[test]
fn root_display() {
    let fact = TermFactory::new();
    assert_eq!(fact.get_root().to_text(), "^ROOT");
}

#[test]
fn well_known_symbol_display_elides_root_type() {
    let fact = TermFactory::new();
    assert_eq!(fact.get_boolean().to_text(), "BOOLEAN");
}

#[test]
fn string_display_always_shows_type() {
    let fact = TermFactory::new();
    let s = fact.new_string(Locus::Internal, "Mister Pickles".to_string());
    assert_eq!(s.to_text(), "\"Mister Pickles\": STRING");
}

#[test]
fn boolean_display_always_shows_type() {
    let fact = TermFactory::new();
    let t = fact.new_boolean(true);
    assert_eq!(t.to_text(), "true: BOOLEAN");
}

#[test]
fn variable_display_shows_guard_and_type() {
    let fact = TermFactory::new();
    let v = fact.new_variable(
        Locus::Internal,
        &fact.get_any(),
        "vivian".to_string(),
        &fact.new_boolean(true),
    );
    assert_eq!(v.to_text(), "$vivian{true: BOOLEAN}: ANY");
}

#[test]
fn display_appends_locus_comment() {
    let fact = TermFactory::new();
    let s = fact.new_string(Locus::Console(9, 21), "x".to_string());
    assert_eq!(s.to_text(), "\"x\": STRING /* 9:21 */");
    let f = fact.new_string(Locus::File("brenda.eli".to_string(), 9, 21), "x".to_string());
    assert_eq!(f.to_text(), "\"x\": STRING /* brenda.eli:9:21 */");
}

#[test]
fn composite_display_forms() {
    let fact = TermFactory::new();
    let a = fact.new_symbol(Locus::Internal, "A".to_string());
    let b = fact.new_symbol(Locus::Internal, "B".to_string());
    let m = fact.new_static_map(Locus::Internal, &a, &b);
    assert_eq!(m.to_text(), "A: SYMBOL => B: SYMBOL");
    let p = fact.new_static_product(Locus::Internal, &a, &b);
    assert_eq!(p.to_text(), "A: SYMBOL * B: SYMBOL");
    let l = fact.new_lambda(Locus::Internal, &a, &b, &fact.new_boolean(true));
    assert_eq!(l.to_text(), "A: SYMBOL ->{true: BOOLEAN} B: SYMBOL");
}
