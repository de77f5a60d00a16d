use symdiff::algebra::Expression;

fn var(name: &str) -> Expression {
    Expression::Variable(name.to_string())
}

fn node(e: Expression) -> Box<Expression> {
    Box::new(e)
}

#[test]
fn constants_render_in_decimal() {
    assert_eq!(Expression::Const(0).render(), "0");
    assert_eq!(Expression::Const(7).render(), "7");
    assert_eq!(Expression::Const(10).render(), "10");
    assert_eq!(Expression::Const(1234567890).render(), "1234567890");
    assert_eq!(Expression::Const(-1).render(), "-1");
    assert_eq!(Expression::Const(-120).render(), "-120");
    assert_eq!(Expression::Const(i64::MAX).render(), "9223372036854775807");
    assert_eq!(Expression::Const(i64::MIN).render(), "-9223372036854775808");
}

#[test]
fn constants_render_as_the_standard_library_does() {
    for v in [0, 1, -1, 9, 10, 11, 99, 100, 101, -99, -100, 4096, -65535, i64::MAX, i64::MIN] {
        assert_eq!(Expression::Const(v).render(), v.to_string());
    }
}

#[test]
fn variables_render_verbatim() {
    assert_eq!(var("x").render(), "x");
    assert_eq!(var("alpha_1").render(), "alpha_1");
    assert_eq!(var("é").render(), "é");
    assert_eq!(var("").render(), "");
}

#[test]
fn sum_renders_in_parentheses() {
    let e = Expression::Add(node(var("x")), node(Expression::Const(3)));
    assert_eq!(e.render(), "(x + 3)");
}

#[test]
fn difference_renders_in_parentheses() {
    let e = Expression::Sub(node(var("x")), node(Expression::Const(3)));
    assert_eq!(e.render(), "(x - 3)");
}

#[test]
fn product_renders_without_parentheses() {
    let e = Expression::Mul(node(var("x")), node(Expression::Const(3)));
    assert_eq!(e.render(), "x*3");
    let nested = Expression::Mul(node(e), node(Expression::Mul(node(var("y")), node(var("z")))));
    assert_eq!(nested.render(), "x*3*y*z");
}

#[test]
fn quotient_renders_without_parentheses() {
    let e = Expression::Div(node(var("x")), node(Expression::Const(3)));
    assert_eq!(e.render(), "x/3");
    let nested = Expression::Div(node(var("a")), node(e));
    assert_eq!(nested.render(), "a/x/3");
}

#[test]
fn power_renders_with_parenthesised_base() {
    let e = Expression::Pow(node(var("x")), node(Expression::Const(2)));
    assert_eq!(e.render(), "(x)**2");
    let nested = Expression::Pow(node(e), node(Expression::Add(node(var("n")), node(var("m")))));
    assert_eq!(nested.render(), "((x)**2)**(n + m)");
}

#[test]
fn negation_renders_with_minus() {
    assert_eq!(Expression::Neg(node(var("x"))).render(), "-x");
    assert_eq!(Expression::Neg(node(Expression::Const(-5))).render(), "--5");
    assert_eq!(Expression::Neg(node(Expression::Neg(node(var("x"))))).render(), "--x");
}

#[test]
fn exp_renders_as_call() {
    assert_eq!(Expression::Exp(node(var("x"))).render(), "exp(x)");
    assert_eq!(Expression::Exp(node(Expression::Const(0))).render(), "exp(0)");
}

#[test]
fn nested_tree_renders_each_node_by_its_own_rule() {
    let e = Expression::Div(
        node(Expression::Sub(
            node(Expression::Mul(node(var("y")), node(Expression::Const(1)))),
            node(Expression::Mul(node(var("x")), node(Expression::Const(0)))),
        )),
        node(Expression::Pow(node(var("y")), node(Expression::Const(2)))),
    );
    assert_eq!(e.render(), "(y*1 - x*0)/(y)**2");
}

#[test]
fn equal_trees_render_to_equal_text() {
    let a = Expression::Exp(node(Expression::Add(node(var("x")), node(Expression::Const(3)))));
    let b = Expression::Exp(node(var("x") + Expression::Const(3)));
    assert_eq!(a, b);
    assert_eq!(a.render(), b.render());
    assert_eq!(a.render(), a.render());
}

#[test]
fn rendering_leaves_the_tree_untouched() {
    let e = Expression::Add(node(var("x")), node(Expression::Const(3)));
    let before = e.clone();
    let _ = e.render();
    assert_eq!(e, before);
}
