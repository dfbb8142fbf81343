use frontend::ast::{
    Expr, ExprKind, InfixOp, Literal, Located, ModuleId, Pat, PatKind, QualifiedName, SourceSpan,
    Symbol, Type, TypeKind,
};
use frontend::parser::{
    apply_record_updates, constraint_to_class_head, constraint_to_instance_head, expr_to_pat,
    lit_expr_to_pat, normalize_app,
};

// The handles of the identifiers that the tests use.
const F: Symbol = Symbol(1);
const G: Symbol = Symbol(2);
const X: Symbol = Symbol(3);
const Y: Symbol = Symbol(4);
const Z: Symbol = Symbol(5);
const A: Symbol = Symbol(6);
const B: Symbol = Symbol(7);
const C: Symbol = Symbol(8);
const Q: Symbol = Symbol(9);
const R: Symbol = Symbol(10);
const JUST: Symbol = Symbol(11);
const NOTHING: Symbol = Symbol(12);
const TUPLE: Symbol = Symbol(13);
const FOO: Symbol = Symbol(14);
const BAR: Symbol = Symbol(15);
const INT: Symbol = Symbol(16);
const RANDOM_LABEL: Symbol = Symbol(17);
const PLUS: Symbol = Symbol(18);
const D: Symbol = Symbol(19);
const E: Symbol = Symbol(20);
const MAYBE: ModuleId = ModuleId(1);

fn span(start: usize, end: usize) -> SourceSpan {
    SourceSpan::new(start, end)
}

/// The span of the first place where `part` stands in `source`.
fn span_of(source: &str, part: &str) -> SourceSpan {
    let start = source.find(part).unwrap();
    SourceSpan::new(start, start + part.len())
}

fn var(at: SourceSpan, name: Symbol) -> Expr {
    Located(at, ExprKind::Var(QualifiedName::new(None, name)))
}

fn con(at: SourceSpan, name: Symbol) -> Expr {
    Located(at, ExprKind::DataConstructor(QualifiedName::new(None, name)))
}

fn num(at: SourceSpan, value: u64) -> Expr {
    Located(at, ExprKind::Literal(Literal::Integer(value)))
}

fn pvar(at: SourceSpan, name: Symbol) -> Pat {
    Located(at, PatKind::Var(name))
}

fn pnum(at: SourceSpan, value: u64) -> Pat {
    Located(at, PatKind::Literal(Literal::Integer(value)))
}

fn pcon(at: SourceSpan, name: Symbol, args: Vec<Pat>) -> Pat {
    Located(at, PatKind::DataConstructorApp(QualifiedName::new(None, name), args))
}

fn tcon(at: SourceSpan, name: Symbol) -> Type {
    Located(at, TypeKind::TypeConstructor(QualifiedName::new(None, name)))
}

fn tvar(at: SourceSpan, name: Symbol) -> Type {
    Located(at, TypeKind::Var(name))
}

fn tapp(at: SourceSpan, f: Type, x: Type) -> Type {
    Located(at, TypeKind::TypeApp(Box::new(f), Box::new(x)))
}

fn rejected(expr: Expr) -> String {
    expr_to_pat(expr).unwrap_err()
}

#[test]
fn application_of_two_arguments() {
    let source = "f x y";
    let f = var(span_of(source, "f"), F);
    let x = var(span_of(source, "x"), X);
    let y = var(span_of(source, "y"), Y);
    let fx = Located(span_of(source, "f x"), normalize_app(f, x));
    let fxy = normalize_app(fx, y);
    assert_eq!(
        fxy,
        ExprKind::App(
            Box::new(var(span(0, 1), F)),
            vec![var(span(2, 3), X), var(span(4, 5), Y)],
        )
    );
}

#[test]
fn application_keeps_an_argument_that_is_an_application() {
    let source = "f a.b (g x)";
    let f = var(span_of(source, "f"), F);
    let accessor = Located(
        span_of(source, "a.b"),
        ExprKind::Accessor(Box::new(var(span_of(source, "a"), A)), B),
    );
    let g = var(span_of(source, "g"), G);
    let x = var(span_of(source, "x"), X);
    let gx = Located(span_of(source, "g x"), normalize_app(g, x));
    let first = Located(span_of(source, "f a.b"), normalize_app(f, accessor));
    let whole = normalize_app(first, gx);
    assert_eq!(
        whole,
        ExprKind::App(
            Box::new(var(span(0, 1), F)),
            vec![
                Located(span(2, 5), ExprKind::Accessor(Box::new(var(span(2, 3), A)), B)),
                Located(
                    span(7, 10),
                    ExprKind::App(Box::new(var(span(7, 8), G)), vec![var(span(9, 10), X)]),
                ),
            ],
        )
    );
}

#[test]
fn normalize_app_builds_one_application_of_three_arguments() {
    let f = var(span(0, 1), F);
    let fa = Located(span(0, 3), normalize_app(f, var(span(2, 3), A)));
    let fab = Located(span(0, 5), normalize_app(fa, var(span(4, 5), B)));
    let fabc = normalize_app(fab, var(span(6, 7), C));
    assert_eq!(
        fabc,
        ExprKind::App(
            Box::new(var(span(0, 1), F)),
            vec![var(span(2, 3), A), var(span(4, 5), B), var(span(6, 7), C)],
        )
    );
}

#[test]
fn normalize_app_of_a_plain_function_has_one_argument() {
    let app = normalize_app(num(span(0, 1), 7), var(span(2, 3), X));
    assert_eq!(app, ExprKind::App(Box::new(num(span(0, 1), 7)), vec![var(span(2, 3), X)]));
}

#[test]
fn normalize_app_joins_the_arguments_of_an_application() {
    // `(g z) a`: the function is an application already, so `a` joins `z`.
    let gz = Located(
        span(0, 5),
        ExprKind::App(Box::new(var(span(1, 2), G)), vec![var(span(3, 4), Z)]),
    );
    let app = normalize_app(gz, var(span(6, 7), A));
    assert_eq!(
        app,
        ExprKind::App(Box::new(var(span(1, 2), G)), vec![var(span(3, 4), Z), var(span(6, 7), A)])
    );
}

#[test]
fn application_of_a_data_constructor() {
    let source = "Just 1";
    let just = con(span_of(source, "Just"), JUST);
    let one = num(span_of(source, "1"), 1);
    let app = normalize_app(just, one);
    assert_eq!(
        app,
        ExprKind::App(Box::new(con(span(0, 4), JUST)), vec![num(span(5, 6), 1)])
    );
}

#[test]
fn constructor_pattern_round_trip() {
    // The expression `Just 1`, read as a pattern, is the pattern `Just 1`.
    let source = "Just 1";
    let whole = span_of(source, source);
    let just = con(span_of(source, "Just"), JUST);
    let one = num(span_of(source, "1"), 1);
    let expr = Located(whole, normalize_app(just, one));
    let pattern = pcon(span(0, 6), JUST, vec![pnum(span(5, 6), 1)]);
    assert_eq!(expr_to_pat(expr), Ok(pattern));
}

#[test]
fn record_update_of_a_variable() {
    let source = "r { x = 1 }";
    let r = var(span_of(source, "r"), R);
    let suffix = Located(
        span_of(source, "{ x = 1 }"),
        ExprKind::RecordUpdateSuffix(vec![(X, num(span_of(source, "1"), 1))]),
    );
    assert_eq!(
        apply_record_updates(r, vec![suffix]),
        ExprKind::App(
            Box::new(Located(
                span(2, 11),
                ExprKind::RecordUpdate(
                    Box::new(var(span(0, 1), R)),
                    vec![(X, num(span(8, 9), 1))],
                ),
            )),
            vec![],
        )
    );
}

#[test]
fn record_update_of_an_argument() {
    let source = "f r { x = 1, y = 2, \"random label\" = 3 }";
    let f = var(span_of(source, "f"), F);
    let r = var(span_of(source, "r"), R);
    let suffix = Located(
        span_of(source, "{ x = 1, y = 2, \"random label\" = 3 }"),
        ExprKind::RecordUpdateSuffix(vec![
            (X, num(span_of(source, "1"), 1)),
            (Y, num(span_of(source, "2"), 2)),
            (RANDOM_LABEL, num(span_of(source, "3"), 3)),
        ]),
    );
    assert_eq!(
        apply_record_updates(f, vec![r, suffix]),
        ExprKind::App(
            Box::new(var(span(0, 1), F)),
            vec![Located(
                span(4, 40),
                ExprKind::RecordUpdate(
                    Box::new(var(span(2, 3), R)),
                    vec![
                        (X, num(span(10, 11), 1)),
                        (Y, num(span(17, 18), 2)),
                        (RANDOM_LABEL, num(span(37, 38), 3)),
                    ],
                ),
            )],
        )
    );
}

#[test]
fn record_updates_chain_in_order() {
    let source = "f r { x = 1 } { y: 2 } q";
    let f = var(span_of(source, "f"), F);
    let r = var(span_of(source, "r"), R);
    let first = Located(
        span_of(source, "{ x = 1 }"),
        ExprKind::RecordUpdateSuffix(vec![(X, num(span_of(source, "1"), 1))]),
    );
    let second = Located(
        span_of(source, "{ y: 2 }"),
        ExprKind::RecordUpdateSuffix(vec![(Y, num(span_of(source, "2"), 2))]),
    );
    let q = var(span_of(source, "q"), Q);
    assert_eq!(
        apply_record_updates(f, vec![r, first, second, q]),
        ExprKind::App(
            Box::new(var(span(0, 1), F)),
            vec![
                Located(
                    span(14, 22),
                    ExprKind::RecordUpdate(
                        Box::new(Located(
                            span(4, 13),
                            ExprKind::RecordUpdate(
                                Box::new(var(span(2, 3), R)),
                                vec![(X, num(span(10, 11), 1))],
                            ),
                        )),
                        vec![(Y, num(span(19, 20), 2))],
                    ),
                ),
                var(span(23, 24), Q),
            ],
        )
    );
}

#[test]
fn record_update_after_the_function_updates_the_function() {
    // `f { x = 1 } q`
    let f = var(span(0, 1), F);
    let suffix = Located(
        span(2, 11),
        ExprKind::RecordUpdateSuffix(vec![(X, num(span(8, 9), 1))]),
    );
    let q = var(span(12, 13), Q);
    assert_eq!(
        apply_record_updates(f, vec![suffix, q]),
        ExprKind::App(
            Box::new(Located(
                span(2, 11),
                ExprKind::RecordUpdate(
                    Box::new(var(span(0, 1), F)),
                    vec![(X, num(span(8, 9), 1))],
                ),
            )),
            vec![var(span(12, 13), Q)],
        )
    );
}

#[test]
fn apply_record_updates_without_updates_applies_the_arguments() {
    let f = var(span(0, 1), F);
    let args = vec![var(span(2, 3), A), num(span(4, 5), 2), var(span(6, 7), C)];
    assert_eq!(
        apply_record_updates(f, args),
        ExprKind::App(
            Box::new(var(span(0, 1), F)),
            vec![var(span(2, 3), A), num(span(4, 5), 2), var(span(6, 7), C)],
        )
    );
}

#[test]
fn apply_record_updates_without_arguments() {
    assert_eq!(
        apply_record_updates(var(span(0, 1), F), vec![]),
        ExprKind::App(Box::new(var(span(0, 1), F)), vec![])
    );
}

#[test]
fn apply_record_updates_leaves_no_suffix() {
    let suffix = |at: SourceSpan| Located(at, ExprKind::RecordUpdateSuffix(vec![]));
    let app = apply_record_updates(
        var(span(0, 1), F),
        vec![suffix(span(2, 4)), var(span(5, 6), A), suffix(span(7, 9)), suffix(span(10, 12))],
    );
    match app {
        ExprKind::App(head, args) => {
            assert!(matches!(head.1, ExprKind::RecordUpdate(_, _)));
            assert_eq!(args.len(), 1);
            match &args[0] {
                Located(at, ExprKind::RecordUpdate(inner, _)) => {
                    assert_eq!(*at, span(10, 12));
                    assert_eq!(inner.0, span(7, 9));
                    match &inner.1 {
                        ExprKind::RecordUpdate(a, _) => assert_eq!(**a, var(span(5, 6), A)),
                        other => panic!("not a record update: {:?}", other),
                    }
                }
                other => panic!("not a record update: {:?}", other),
            }
        }
        other => panic!("not an application: {:?}", other),
    }
}

#[test]
fn lambda_parameter_is_read_as_a_variable() {
    // `\x -> y`: the parameter is read as an expression first.
    let source = "\\x -> y";
    let param = var(span_of(source, "x"), X);
    assert_eq!(expr_to_pat(param), Ok(pvar(span(1, 2), X)));
}

#[test]
fn lambda_parameters_wildcard_and_variable() {
    let source = "\\_ y -> y";
    let wildcard = Located(span_of(source, "_"), ExprKind::Wildcard);
    let y = var(span_of(source, "y"), Y);
    assert_eq!(expr_to_pat(wildcard), Ok(Located(span(1, 2), PatKind::Wildcard)));
    assert_eq!(expr_to_pat(y), Ok(pvar(span(3, 4), Y)));
}

#[test]
fn named_pattern_in_a_lambda() {
    let source = "\\x@Nothing -> y";
    let named = Located(
        span_of(source, "x@Nothing"),
        ExprKind::NamedPat(X, Box::new(con(span_of(source, "Nothing"), NOTHING))),
    );
    assert_eq!(
        expr_to_pat(named),
        Ok(Located(
            span(1, 10),
            PatKind::Named(X, Box::new(pcon(span(3, 10), NOTHING, vec![]))),
        ))
    );
}

#[test]
fn constructor_without_arguments_as_parameter() {
    let source = "f Nothing = 1";
    let nothing = con(span_of(source, "Nothing"), NOTHING);
    assert_eq!(expr_to_pat(nothing), Ok(pcon(span(2, 9), NOTHING, vec![])));
}

#[test]
fn case_branch_patterns() {
    // The patterns of the branches `C a b`, `D (A c) _`, `E` and `_`.
    let c_a_b = Located(
        span(0, 5),
        ExprKind::App(Box::new(con(span(0, 1), C)), vec![var(span(2, 3), A), var(span(4, 5), B)]),
    );
    assert_eq!(
        expr_to_pat(c_a_b),
        Ok(pcon(span(0, 5), C, vec![pvar(span(2, 3), A), pvar(span(4, 5), B)]))
    );
    let d = Located(
        span(0, 9),
        ExprKind::App(
            Box::new(con(span(0, 1), D)),
            vec![
                Located(
                    span(3, 6),
                    ExprKind::App(Box::new(con(span(3, 4), A)), vec![var(span(5, 6), C)]),
                ),
                Located(span(8, 9), ExprKind::Wildcard),
            ],
        ),
    );
    assert_eq!(
        expr_to_pat(d),
        Ok(pcon(
            span(0, 9),
            D,
            vec![
                pcon(span(3, 6), A, vec![pvar(span(5, 6), C)]),
                Located(span(8, 9), PatKind::Wildcard),
            ],
        ))
    );
    assert_eq!(expr_to_pat(con(span(0, 1), E)), Ok(pcon(span(0, 1), E, vec![])));
    assert_eq!(
        expr_to_pat(Located(span(0, 1), ExprKind::Wildcard)),
        Ok(Located(span(0, 1), PatKind::Wildcard))
    );
}

#[test]
fn do_bind_destructures() {
    let source = "Tuple x y <- foo";
    let binder = Located(
        span_of(source, "Tuple x y"),
        ExprKind::App(
            Box::new(con(span_of(source, "Tuple"), TUPLE)),
            vec![var(span_of(source, "x"), X), var(span_of(source, "y"), Y)],
        ),
    );
    assert_eq!(
        expr_to_pat(binder),
        Ok(pcon(span(0, 9), TUPLE, vec![pvar(span(6, 7), X), pvar(span(8, 9), Y)]))
    );
}

#[test]
fn do_bind_with_type_ascription() {
    let source = "x :: Int <- foo";
    let binder = Located(
        span_of(source, "x :: Int"),
        ExprKind::Typed(
            Box::new(var(span_of(source, "x"), X)),
            Box::new(tcon(span_of(source, "Int"), INT)),
        ),
    );
    assert_eq!(
        expr_to_pat(binder),
        Ok(Located(
            span(0, 8),
            PatKind::Typed(Box::new(pvar(span(0, 1), X)), Box::new(tcon(span(5, 8), INT))),
        ))
    );
}

#[test]
fn literal_parameters() {
    // The parameters of `h [x, y]`, `j {x, y: 1}`, `k "foo"` and `l 42`.
    let array = Located(
        span(2, 8),
        ExprKind::Literal(Literal::Array(vec![var(span(3, 4), X), var(span(6, 7), Y)])),
    );
    assert_eq!(
        expr_to_pat(array),
        Ok(Located(
            span(2, 8),
            PatKind::Literal(Literal::Array(vec![pvar(span(3, 4), X), pvar(span(6, 7), Y)])),
        ))
    );
    let object = Located(
        span(2, 11),
        ExprKind::Literal(Literal::Object(vec![
            (X, var(span(3, 4), X)),
            (Y, num(span(9, 10), 1)),
        ])),
    );
    assert_eq!(
        expr_to_pat(object),
        Ok(Located(
            span(2, 11),
            PatKind::Literal(Literal::Object(vec![
                (X, pvar(span(3, 4), X)),
                (Y, pnum(span(9, 10), 1)),
            ])),
        ))
    );
    let text = Located(span(2, 7), ExprKind::Literal(Literal::String("foo".to_string())));
    assert_eq!(
        expr_to_pat(text),
        Ok(Located(span(2, 7), PatKind::Literal(Literal::String("foo".to_string()))))
    );
    assert_eq!(expr_to_pat(num(span(2, 4), 42)), Ok(pnum(span(2, 4), 42)));
}

#[test]
fn lit_expr_to_pat_keeps_plain_literals() {
    assert_eq!(lit_expr_to_pat(Literal::Integer(123)), Ok(Literal::Integer(123)));
    assert_eq!(
        lit_expr_to_pat(Literal::Float(1.5f64.to_bits())),
        Ok(Literal::Float(1.5f64.to_bits()))
    );
    assert_eq!(
        lit_expr_to_pat(Literal::String("hello".to_string())),
        Ok(Literal::String("hello".to_string()))
    );
    assert_eq!(lit_expr_to_pat(Literal::Char('a')), Ok(Literal::Char('a')));
    assert_eq!(lit_expr_to_pat(Literal::Boolean(true)), Ok(Literal::Boolean(true)));
    assert_eq!(lit_expr_to_pat(Literal::Array(vec![])), Ok(Literal::Array(vec![])));
    assert_eq!(lit_expr_to_pat(Literal::Object(vec![])), Ok(Literal::Object(vec![])));
}

#[test]
fn lit_expr_to_pat_reads_the_parts() {
    assert_eq!(
        lit_expr_to_pat(Literal::Array(vec![num(span(1, 2), 1), var(span(4, 5), X)])),
        Ok(Literal::Array(vec![pnum(span(1, 2), 1), pvar(span(4, 5), X)]))
    );
    assert_eq!(
        lit_expr_to_pat(Literal::Object(vec![(A, var(span(1, 2), X)), (B, num(span(4, 5), 2))])),
        Ok(Literal::Object(vec![(A, pvar(span(1, 2), X)), (B, pnum(span(4, 5), 2))]))
    );
}

#[test]
fn lit_expr_to_pat_rejects_a_part() {
    let lambda = Located(span(4, 11), ExprKind::Lam(vec![], Box::new(var(span(10, 11), X))));
    assert_eq!(
        lit_expr_to_pat(Literal::Array(vec![var(span(1, 2), X), lambda])),
        Err("Illegal lambda in pattern".to_string())
    );
    let accessor = Located(span(4, 7), ExprKind::Accessor(Box::new(var(span(4, 5), A)), B));
    assert_eq!(
        lit_expr_to_pat(Literal::Object(vec![(A, accessor)])),
        Err("Illegal record accessor in pattern".to_string())
    );
}

#[test]
fn expr_to_pat_reads_an_infix_chain() {
    // `x + y + 1`
    let chain = Located(
        span(0, 9),
        ExprKind::Infix(
            Box::new(var(span(0, 1), X)),
            vec![
                (InfixOp::Symbol(PLUS), var(span(4, 5), Y)),
                (InfixOp::Symbol(PLUS), num(span(8, 9), 1)),
            ],
        ),
    );
    assert_eq!(
        expr_to_pat(chain),
        Ok(Located(
            span(0, 9),
            PatKind::Infix(
                Box::new(pvar(span(0, 1), X)),
                vec![(PLUS, pvar(span(4, 5), Y)), (PLUS, pnum(span(8, 9), 1))],
            ),
        ))
    );
}

#[test]
fn expr_to_pat_reads_a_record_update_as_a_chain() {
    let update = Located(
        span(0, 11),
        ExprKind::RecordUpdate(
            Box::new(var(span(0, 1), R)),
            vec![(X, num(span(8, 9), 1)), (Y, var(span(10, 11), Z))],
        ),
    );
    assert_eq!(
        expr_to_pat(update),
        Ok(Located(
            span(0, 11),
            PatKind::Infix(
                Box::new(pvar(span(0, 1), R)),
                vec![(X, pnum(span(8, 9), 1)), (Y, pvar(span(10, 11), Z))],
            ),
        ))
    );
}

#[test]
fn expr_to_pat_keeps_a_qualified_constructor() {
    let name = QualifiedName::new(Some(MAYBE), JUST);
    let expr = Located(
        span(0, 12),
        ExprKind::App(
            Box::new(Located(span(0, 10), ExprKind::DataConstructor(name))),
            vec![var(span(11, 12), X)],
        ),
    );
    assert_eq!(
        expr_to_pat(expr),
        Ok(Located(
            span(0, 12),
            PatKind::DataConstructorApp(name, vec![pvar(span(11, 12), X)]),
        ))
    );
}

#[test]
fn expr_to_pat_rejects_an_accessor() {
    let accessor = Located(span(0, 3), ExprKind::Accessor(Box::new(var(span(0, 1), A)), B));
    assert_eq!(rejected(accessor), "Illegal record accessor in pattern");
}

#[test]
fn expr_to_pat_rejects_a_qualified_variable() {
    let qualified = Located(span(0, 7), ExprKind::Var(QualifiedName::new(Some(MAYBE), X)));
    assert_eq!(rejected(qualified), "Illegal qualified name in pattern");
}

#[test]
fn expr_to_pat_rejects_an_application_of_a_variable() {
    let app = Located(
        span(0, 3),
        ExprKind::App(Box::new(var(span(0, 1), F)), vec![var(span(2, 3), X)]),
    );
    assert_eq!(rejected(app), "illegal pattern in data constructor position");
}

#[test]
fn expr_to_pat_rejects_the_head_before_the_arguments() {
    // Both the head and the argument are illegal: the head is reported.
    let lambda = Located(span(2, 9), ExprKind::Lam(vec![], Box::new(var(span(8, 9), X))));
    let app = Located(span(0, 9), ExprKind::App(Box::new(var(span(0, 1), F)), vec![lambda]));
    assert_eq!(rejected(app), "illegal pattern in data constructor position");
}

#[test]
fn expr_to_pat_rejects_a_lambda() {
    let lambda = Located(
        span(0, 7),
        ExprKind::Lam(vec![pvar(span(1, 2), X)], Box::new(var(span(6, 7), Y))),
    );
    assert_eq!(rejected(lambda), "Illegal lambda in pattern");
}

#[test]
fn expr_to_pat_rejects_a_case() {
    let case = Located(
        span(0, 9),
        ExprKind::Case { expr: Box::new(var(span(5, 6), X)), branches: vec![] },
    );
    assert_eq!(rejected(case), "Illegal case in pattern");
}

#[test]
fn expr_to_pat_rejects_an_if() {
    let cond = Located(
        span(0, 18),
        ExprKind::If {
            cond: Box::new(var(span(3, 4), B)),
            then_: Box::new(num(span(10, 11), 1)),
            else_: Box::new(num(span(17, 18), 2)),
        },
    );
    assert_eq!(rejected(cond), "Illegal if in pattern");
}

#[test]
fn expr_to_pat_rejects_a_let() {
    let block = Located(
        span(0, 14),
        ExprKind::Let { decls: vec![], body: Box::new(var(span(13, 14), X)) },
    );
    assert_eq!(rejected(block), "Illegal let in pattern");
}

#[test]
fn expr_to_pat_rejects_a_record_update_suffix() {
    let suffix = Located(span(0, 9), ExprKind::RecordUpdateSuffix(vec![(X, num(span(6, 7), 1))]));
    assert_eq!(rejected(suffix), "Illegal record update in pattern");
}

#[test]
fn expr_to_pat_rejects_a_do_block() {
    assert_eq!(rejected(Located(span(0, 2), ExprKind::Do(vec![]))), "Illegal do in pattern");
}

#[test]
fn expr_to_pat_rejects_an_ado_block() {
    let ado = Located(span(0, 10), ExprKind::Ado(vec![], Box::new(var(span(9, 10), X))));
    assert_eq!(rejected(ado), "Illegal ado in pattern");
}

#[test]
fn expr_to_pat_rejects_a_negation() {
    let negation = Located(span(0, 2), ExprKind::Negate(Box::new(num(span(1, 2), 1))));
    assert_eq!(rejected(negation), "Illegal negation in pattern");
}

#[test]
fn expr_to_pat_rejects_an_operator() {
    let operator = Located(span(0, 3), ExprKind::Operator(InfixOp::Symbol(PLUS)));
    assert_eq!(rejected(operator), "Illegal operator in pattern");
}

#[test]
fn expr_to_pat_rejects_a_backtick_operator() {
    let chain = Located(
        span(0, 7),
        ExprKind::Infix(
            Box::new(var(span(0, 1), X)),
            vec![(InfixOp::Backtick(Box::new(var(span(3, 4), F))), var(span(6, 7), Y))],
        ),
    );
    assert_eq!(rejected(chain), "Illegal backtick operator in pattern");
}

#[test]
fn expr_to_pat_reports_the_leftmost_rejection() {
    let accessor = Located(span(2, 5), ExprKind::Accessor(Box::new(var(span(2, 3), A)), B));
    let lambda = Located(span(6, 13), ExprKind::Lam(vec![], Box::new(var(span(12, 13), X))));
    let app = Located(
        span(0, 13),
        ExprKind::App(Box::new(con(span(0, 1), C)), vec![accessor, lambda]),
    );
    assert_eq!(rejected(app), "Illegal record accessor in pattern");

    // In an infix chain the first operand comes before the others.
    let first = Located(span(0, 2), ExprKind::Do(vec![]));
    let second = Located(span(5, 6), ExprKind::Negate(Box::new(num(span(6, 7), 1))));
    let chain = Located(
        span(0, 7),
        ExprKind::Infix(Box::new(first), vec![(InfixOp::Symbol(PLUS), second)]),
    );
    assert_eq!(rejected(chain), "Illegal do in pattern");
}

#[test]
fn expr_to_pat_rejects_below_a_named_pattern_and_an_ascription() {
    let named = Located(
        span(0, 5),
        ExprKind::NamedPat(
            X,
            Box::new(Located(span(2, 5), ExprKind::Accessor(Box::new(var(span(2, 3), A)), B))),
        ),
    );
    assert_eq!(rejected(named), "Illegal record accessor in pattern");
    let typed = Located(
        span(0, 12),
        ExprKind::Typed(
            Box::new(Located(span(0, 2), ExprKind::Do(vec![]))),
            Box::new(tcon(span(6, 9), INT)),
        ),
    );
    assert_eq!(rejected(typed), "Illegal do in pattern");
}

#[test]
fn instance_head_of_a_type() {
    // The head of `instance Foo Int where`.
    let source = "Foo Int";
    let constraint = tapp(
        span_of(source, source),
        tcon(span_of(source, "Foo"), FOO),
        tcon(span_of(source, "Int"), INT),
    );
    assert_eq!(
        constraint_to_instance_head(constraint),
        Some((QualifiedName::new(None, FOO), vec![tcon(span(4, 7), INT)]))
    );
}

#[test]
fn instance_head_of_a_variable() {
    // The head of `instance Bar a => Foo a where`.
    let source = "Foo a";
    let constraint = tapp(
        span_of(source, source),
        tcon(span_of(source, "Foo"), FOO),
        tvar(span_of(source, "a"), A),
    );
    assert_eq!(
        constraint_to_instance_head(constraint),
        Some((QualifiedName::new(None, FOO), vec![tvar(span(4, 5), A)]))
    );
}

#[test]
fn instance_head_keeps_the_arguments_in_order() {
    // `Foo a Int (Bar b)`
    let bar_b = tapp(span(11, 16), tcon(span(11, 14), BAR), tvar(span(15, 16), B));
    let constraint = tapp(
        span(0, 17),
        tapp(
            span(0, 9),
            tapp(span(0, 5), tcon(span(0, 3), FOO), tvar(span(4, 5), A)),
            tcon(span(6, 9), INT),
        ),
        bar_b,
    );
    assert_eq!(
        constraint_to_instance_head(constraint),
        Some((
            QualifiedName::new(None, FOO),
            vec![
                tvar(span(4, 5), A),
                tcon(span(6, 9), INT),
                tapp(span(11, 16), tcon(span(11, 14), BAR), tvar(span(15, 16), B)),
            ],
        ))
    );
}

#[test]
fn instance_head_of_a_bare_constructor() {
    let name = QualifiedName::new(Some(MAYBE), FOO);
    let constraint = Located(span(0, 9), TypeKind::TypeConstructor(name));
    assert_eq!(constraint_to_instance_head(constraint), Some((name, vec![])));
}

#[test]
fn instance_head_needs_a_constructor_at_the_root() {
    assert_eq!(constraint_to_instance_head(tvar(span(0, 1), A)), None);
    let applied_variable = tapp(span(0, 5), tvar(span(0, 1), F), tcon(span(2, 5), INT));
    assert_eq!(constraint_to_instance_head(applied_variable), None);
    let function = Located(
        span(0, 10),
        TypeKind::FunctionType(
            Box::new(tcon(span(0, 3), INT)),
            Box::new(tcon(span(7, 10), INT)),
        ),
    );
    assert_eq!(constraint_to_instance_head(function), None);
    let row = Located(span(0, 2), TypeKind::Row { fields: vec![], rest: None });
    assert_eq!(
        constraint_to_instance_head(tapp(span(0, 6), row, tcon(span(3, 6), INT))),
        None
    );
}

#[test]
fn class_head_of_one_parameter() {
    // The head of `class Foo a where`.
    let source = "Foo a";
    let constraint = tapp(
        span_of(source, source),
        tcon(span_of(source, "Foo"), FOO),
        tvar(span_of(source, "a"), A),
    );
    assert_eq!(constraint_to_class_head(constraint), Some((FOO, vec![(A, None)])));
}

#[test]
fn class_head_keeps_the_parameters_in_order() {
    // `Foo a b c`
    let constraint = tapp(
        span(0, 9),
        tapp(
            span(0, 7),
            tapp(span(0, 5), tcon(span(0, 3), FOO), tvar(span(4, 5), A)),
            tvar(span(6, 7), B),
        ),
        tvar(span(8, 9), C),
    );
    assert_eq!(
        constraint_to_class_head(constraint),
        Some((FOO, vec![(A, None), (B, None), (C, None)]))
    );
}

#[test]
fn class_head_of_a_bare_constructor() {
    assert_eq!(constraint_to_class_head(tcon(span(0, 3), FOO)), Some((FOO, vec![])));
}

#[test]
fn class_head_needs_an_unqualified_name() {
    let qualified = Located(
        span(0, 9),
        TypeKind::TypeConstructor(QualifiedName::new(Some(MAYBE), FOO)),
    );
    assert_eq!(constraint_to_class_head(qualified), None);
    let qualified = Located(
        span(0, 9),
        TypeKind::TypeConstructor(QualifiedName::new(Some(MAYBE), FOO)),
    );
    assert_eq!(constraint_to_class_head(tapp(span(0, 11), qualified, tvar(span(10, 11), A))), None);
}

#[test]
fn class_head_needs_variables_as_arguments() {
    // `Foo Int`, and `Foo a Int b` with the constructor in the middle.
    let constraint = tapp(span(0, 7), tcon(span(0, 3), FOO), tcon(span(4, 7), INT));
    assert_eq!(constraint_to_class_head(constraint), None);
    let constraint = tapp(
        span(0, 11),
        tapp(
            span(0, 9),
            tapp(span(0, 5), tcon(span(0, 3), FOO), tvar(span(4, 5), A)),
            tcon(span(6, 9), INT),
        ),
        tvar(span(10, 11), B),
    );
    assert_eq!(constraint_to_class_head(constraint), None);
}

#[test]
fn class_head_needs_a_constructor_at_the_root() {
    assert_eq!(constraint_to_class_head(tvar(span(0, 1), A)), None);
    assert_eq!(
        constraint_to_class_head(tapp(span(0, 3), tvar(span(0, 1), F), tvar(span(2, 3), A))),
        None
    );
    let literal = Located(span(0, 2), TypeKind::IntegerLiteral(42));
    assert_eq!(constraint_to_class_head(literal), None);
}
