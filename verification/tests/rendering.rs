use logik::formula::Formula;

#[test]
fn renders_single_variable() {
    let f = Formula::var(String::from("p"));
    assert_eq!(f.render(), "p");
}

#[test]
fn renders_negated_variable() {
    let f = Formula::not(Formula::var(String::from("p")));
    assert_eq!(f.render(), "!(p)");
}

#[test]
fn renders_and() {
    let f = Formula::and(Formula::var(String::from("a")), Formula::var(String::from("b")));
    assert_eq!(f.render(), "(a & b)");
}

#[test]
fn renders_or() {
    let f = Formula::or(Formula::var(String::from("a")), Formula::var(String::from("b")));
    assert_eq!(f.render(), "(a | b)");
}

#[test]
fn renders_implication() {
    let f = Formula::implication(Formula::var(String::from("p")), Formula::var(String::from("q")));
    assert_eq!(f.render(), "(p => q)");
}

#[test]
fn renders_equivalence_with_negation() {
    let f = Formula::equivalence(
        Formula::not(Formula::var(String::from("x"))),
        Formula::var(String::from("y")),
    );
    assert_eq!(f.render(), "(!(x) <=> y)");
}

#[test]
fn renders_and_over_or_with_explicit_grouping() {
    let a = Formula::var(String::from("a"));
    let b = Formula::var(String::from("b"));
    let c = Formula::var(String::from("c"));
    let f = Formula::and(Formula::or(a, b), c);
    assert_eq!(f.render(), "((a | b) & c)");
}

#[test]
fn rendering_is_deterministic() {
    let f = Formula::implication(
        Formula::and(Formula::var(String::from("p")), Formula::var(String::from("q"))),
        Formula::not(Formula::var(String::from("r"))),
    );
    let first = f.render();
    let second = f.render();
    assert_eq!(first, second);
}

#[test]
fn renders_empty_variable_name_verbatim() {
    let f = Formula::var(String::from(""));
    assert_eq!(f.render(), "");
    let g = Formula::and(Formula::var(String::from("")), Formula::var(String::from("")));
    assert_eq!(g.render(), "( & )");
}

#[test]
fn renders_nested_binary_operators() {
    let f = Formula::or(
        Formula::implication(Formula::var(String::from("p")), Formula::var(String::from("q"))),
        Formula::equivalence(Formula::var(String::from("r")), Formula::var(String::from("s"))),
    );
    assert_eq!(f.render(), "((p => q) | (r <=> s))");
}

#[test]
fn deep_right_leaning_chain_keeps_brackets_balanced() {
    let mut f = Formula::var(String::from("x"));
    for _ in 0..1000 {
        f = Formula::and(Formula::var(String::from("x")), f);
    }
    let text = f.render();
    let opening = text.chars().filter(|&c| c == '(').count();
    let closing = text.chars().filter(|&c| c == ')').count();
    assert_eq!(opening, 1000);
    assert_eq!(closing, 1000);
    let mut depth: i64 = 0;
    for c in text.chars() {
        if c == '(' {
            depth += 1;
        } else if c == ')' {
            depth -= 1;
            assert!(depth >= 0);
        }
    }
    assert_eq!(depth, 0);
}

#[test]
fn deep_negation_chain_keeps_brackets_balanced() {
    let mut f = Formula::var(String::from("p"));
    for _ in 0..500 {
        f = Formula::not(f);
    }
    let text = f.render();
    let opening = text.chars().filter(|&c| c == '(').count();
    let closing = text.chars().filter(|&c| c == ')').count();
    assert_eq!(opening, 500);
    assert_eq!(closing, 500);
    assert!(text.starts_with("!(!("));
    assert!(text.ends_with("))"));
}
