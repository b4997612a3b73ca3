use relision::eli_writer::{EliWriter, TermWriter};
use relision::locus::Locus;
use relision::termfactory::TermFactory;

#[test]
fn root_renders_as_marker() {
    let fact = TermFactory::new();
    let w = EliWriter::new();
    assert_eq!(w.write(&fact, &fact.get_root()), "^ROOT");
}

#[test]
fn canonical_true_renders_bare() {
    let fact = TermFactory::new();
    let w = EliWriter::new();
    let t = fact.new_boolean(true);
    assert_eq!(w.write(&fact, &t), "true");
    let f = fact.new_boolean(false);
    assert_eq!(w.write(&fact, &f), "false");
}

#[test]
fn typed_boolean_shows_its_type() {
    let fact = TermFactory::new();
    let w = EliWriter::new();
    let t = fact.new_typed_boolean(Locus::Internal, true, fact.get_any());
    assert_eq!(w.write(&fact, &t), "true: ANY");
}

#[test]
fn variable_with_defaults_renders_bare() {
    let fact = TermFactory::new();
    let w = EliWriter::new();
    let v = fact.new_variable(
        Locus::Internal,
        &fact.get_any(),
        "x".to_string(),
        &fact.new_boolean(true),
    );
    assert_eq!(w.write(&fact, &v), "$x");
}

#[test]
fn variable_guard_and_type_are_shown_when_not_default() {
    let fact = TermFactory::new();
    let w = EliWriter::new();
    let v = fact.new_variable(
        Locus::Internal,
        &fact.get_symbol(),
        "x".to_string(),
        &fact.new_boolean(false),
    );
    assert_eq!(w.write(&fact, &v), "$x{false}: SYMBOL");
}

#[test]
fn untyped_map_renders_infix() {
    let fact = TermFactory::new();
    let w = EliWriter::new();
    let a = fact.new_symbol(Locus::Internal, "A".to_string());
    let b = fact.new_symbol(Locus::Internal, "B".to_string());
    let m = fact.new_static_map(Locus::Internal, &a, &b);
    assert_eq!(w.write(&fact, &m), "A => B");
}

#[test]
fn product_renders_infix() {
    let fact = TermFactory::new();
    let w = EliWriter::new();
    let p = fact.new_static_product(Locus::Internal, &fact.get_string(), &fact.get_symbol());
    assert_eq!(w.write(&fact, &p), "STRING * SYMBOL");
}

#[test]
fn lambda_with_canonical_guard_elides_it() {
    let fact = TermFactory::new();
    let w = EliWriter::new();
    let guard = fact.new_boolean(true);
    let v = fact.new_variable(Locus::Internal, &fact.get_any(), "x".to_string(), &guard);
    let body = fact.new_string(Locus::Internal, "out".to_string());
    let l = fact.new_lambda(Locus::Internal, &v, &body, &guard);
    assert_eq!(w.write(&fact, &l), "$x -> \"out\"");
}

#[test]
fn lambda_guard_is_shown_when_not_canonical_true() {
    let fact = TermFactory::new();
    let w = EliWriter::new();
    let guard = fact.new_boolean(false);
    let v = fact.new_variable(Locus::Internal, &fact.get_any(), "x".to_string(), &fact.new_boolean(true));
    let body = fact.new_string(Locus::Internal, "out".to_string());
    let l = fact.new_lambda(Locus::Internal, &v, &body, &guard);
    assert_eq!(w.write(&fact, &l), "$x ->{false} \"out\"");
}

#[test]
fn well_known_symbol_renders_without_type() {
    let fact = TermFactory::new();
    let w = EliWriter::new();
    assert_eq!(w.write(&fact, &fact.get_boolean()), "BOOLEAN");
    assert_eq!(w.write(&fact, &fact.get_symbol()), "SYMBOL");
}

#[test]
fn symbol_named_like_a_root_term_shows_its_type() {
    let fact = TermFactory::new();
    let w = EliWriter::new();
    // A plain symbol that happens to be named BOOLEAN is typed SYMBOL, not
    // ROOT, so its type is shown.
    let s = fact.new_symbol(Locus::Internal, "BOOLEAN".to_string());
    assert_eq!(w.write(&fact, &s), "BOOLEAN: SYMBOL");
}

#[test]
fn plain_symbol_renders_without_type() {
    let fact = TermFactory::new();
    let w = EliWriter::new();
    let s = fact.new_symbol(Locus::Internal, "abc".to_string());
    assert_eq!(w.write(&fact, &s), "abc");
}

#[test]
fn symbol_needing_escape_is_backtick_wrapped() {
    let fact = TermFactory::new();
    let w = EliWriter::new();
    let s = fact.new_symbol(Locus::Internal, "a b`c".to_string());
    // The space passes through; the backtick border is escaped.
    assert_eq!(w.write(&fact, &s), "`a b\\`c`");
}

#[test]
fn string_renders_quoted() {
    let fact = TermFactory::new();
    let w = EliWriter::new();
    let s = fact.new_string(Locus::Internal, "Mister Pickles".to_string());
    assert_eq!(w.write(&fact, &s), "\"Mister Pickles\"");
    let t = fact.new_string(Locus::Internal, "say \"hi\"\n".to_string());
    assert_eq!(w.write(&fact, &t), "\"say \\\"hi\\\"\\n\"");
}

#[test]
fn typed_string_shows_its_type() {
    let fact = TermFactory::new();
    let w = EliWriter::new();
    let s = fact.new_typed_string(Locus::Internal, "x".to_string(), fact.get_none());
    assert_eq!(w.write(&fact, &s), "\"x\": NONE");
}

#[test]
fn nested_rendering_recurses() {
    let fact = TermFactory::new();
    let w = EliWriter::new();
    let v = fact.new_variable(
        Locus::Internal,
        &fact.get_symbol(),
        "vivian".to_string(),
        &fact.new_boolean(true),
    );
    let u = fact.new_string(Locus::Internal, "Mister Pickles".to_string());
    let m = fact.new_static_map(Locus::Internal, &v, &u);
    assert_eq!(w.write(&fact, &m), "$vivian: SYMBOL => \"Mister Pickles\"");
}

#[test]
fn locus_does_not_affect_canonical_notation() {
    let fact = TermFactory::new();
    let w = EliWriter::new();
    let s = fact.new_string(Locus::File("a.eli".to_string(), 1, 2), "x".to_string());
    assert_eq!(w.write(&fact, &s), "\"x\"");
    // A true literal with canonical type but a console locus still elides
    // as a guard.
    let guard = fact.new_typed_boolean(Locus::Console(1, 1), true, fact.get_boolean());
    let v = fact.new_variable(Locus::Internal, &fact.get_any(), "x".to_string(), &guard);
    assert_eq!(w.write(&fact, &v), "$x");
}
