use frontend::ast::{
    CaseBranch, Declaration, DoItem, Expr, ExprKind, Guard, GuardedExpr, InfixOp, Literal,
    Located, Pat, PatKind, PossiblyGuardedExpr, QualifiedName, SourceSpan, Symbol, Type,
    TypeKind,
};
use frontend::parser::{apply_record_updates, expr_to_pat, normalize_app};

const X: Symbol = Symbol(1);
const Y: Symbol = Symbol(2);
const F: Symbol = Symbol(3);

fn at(start: usize) -> SourceSpan {
    SourceSpan::new(start, start + 1)
}

fn var(start: usize, name: Symbol) -> Expr {
    Located(at(start), ExprKind::Var(QualifiedName::new(None, name)))
}

fn pvar(start: usize, name: Symbol) -> Pat {
    Located(at(start), PatKind::Var(name))
}

/// A record-update suffix, which is not proper.
fn suffix(start: usize) -> Expr {
    Located(at(start), ExprKind::RecordUpdateSuffix(vec![(X, var(start, Y))]))
}

/// A named pattern read as an expression, which is not proper.
fn named(start: usize) -> Expr {
    Located(at(start), ExprKind::NamedPat(X, Box::new(var(start, Y))))
}

fn boxed(e: Expr) -> Box<Expr> {
    Box::new(e)
}

fn rhs(e: Expr) -> PossiblyGuardedExpr {
    PossiblyGuardedExpr::Unconditional(e)
}

fn int_type() -> Type {
    Located(at(0), TypeKind::TypeConstructor(QualifiedName::new(None, Symbol(9))))
}

/// Every form of expression around `inner`, one level deep.
fn around(inner: fn(usize) -> Expr) -> Vec<Expr> {
    let wrap = |kind: ExprKind| Located(SourceSpan::new(0, 9), kind);
    vec![
        wrap(ExprKind::Literal(Literal::Array(vec![var(1, X), inner(2)]))),
        wrap(ExprKind::Literal(Literal::Object(vec![(X, var(1, X)), (Y, inner(2))]))),
        wrap(ExprKind::Infix(boxed(inner(1)), vec![])),
        wrap(ExprKind::Infix(boxed(var(1, X)), vec![(InfixOp::Symbol(F), inner(2))])),
        wrap(ExprKind::Infix(
            boxed(var(1, X)),
            vec![(InfixOp::Backtick(boxed(inner(2))), var(3, Y))],
        )),
        wrap(ExprKind::Accessor(boxed(inner(1)), X)),
        wrap(ExprKind::RecordUpdate(boxed(inner(1)), vec![])),
        wrap(ExprKind::RecordUpdate(boxed(var(1, X)), vec![(X, inner(2))])),
        wrap(ExprKind::Operator(InfixOp::Backtick(boxed(inner(1))))),
        wrap(ExprKind::App(boxed(inner(1)), vec![])),
        wrap(ExprKind::App(boxed(var(1, F)), vec![var(2, X), inner(3)])),
        wrap(ExprKind::Lam(vec![pvar(1, X)], boxed(inner(2)))),
        wrap(ExprKind::Case { expr: boxed(inner(1)), branches: vec![] }),
        wrap(ExprKind::Case {
            expr: boxed(var(1, X)),
            branches: vec![CaseBranch { pats: vec![pvar(2, Y)], expr: rhs(inner(3)) }],
        }),
        wrap(ExprKind::Case {
            expr: boxed(var(1, X)),
            branches: vec![CaseBranch {
                pats: vec![pvar(2, Y)],
                expr: PossiblyGuardedExpr::Guarded(vec![GuardedExpr {
                    guards: vec![Guard::Expr(var(3, X))],
                    expr: inner(4),
                }]),
            }],
        }),
        wrap(ExprKind::Case {
            expr: boxed(var(1, X)),
            branches: vec![CaseBranch {
                pats: vec![pvar(2, Y)],
                expr: PossiblyGuardedExpr::Guarded(vec![GuardedExpr {
                    guards: vec![Guard::Expr(var(3, X)), Guard::Expr(inner(4))],
                    expr: var(5, X),
                }]),
            }],
        }),
        wrap(ExprKind::Case {
            expr: boxed(var(1, X)),
            branches: vec![CaseBranch {
                pats: vec![pvar(2, Y)],
                expr: PossiblyGuardedExpr::Guarded(vec![GuardedExpr {
                    guards: vec![Guard::Bind(pvar(3, X), inner(4))],
                    expr: var(5, X),
                }]),
            }],
        }),
        wrap(ExprKind::If {
            cond: boxed(inner(1)),
            then_: boxed(var(2, X)),
            else_: boxed(var(3, Y)),
        }),
        wrap(ExprKind::If {
            cond: boxed(var(1, X)),
            then_: boxed(inner(2)),
            else_: boxed(var(3, Y)),
        }),
        wrap(ExprKind::If {
            cond: boxed(var(1, X)),
            then_: boxed(var(2, X)),
            else_: boxed(inner(3)),
        }),
        wrap(ExprKind::Typed(boxed(inner(1)), Box::new(int_type()))),
        wrap(ExprKind::Let { decls: vec![], body: boxed(inner(1)) }),
        wrap(ExprKind::Let {
            decls: vec![
                Declaration::TypeSignature { name: X, type_: int_type() },
                Declaration::ValueDeclaration { name: X, params: vec![], expr: rhs(inner(1)) },
            ],
            body: boxed(var(2, X)),
        }),
        wrap(ExprKind::Let {
            decls: vec![Declaration::Destructuring { pat: pvar(1, X), expr: rhs(inner(2)) }],
            body: boxed(var(3, X)),
        }),
        wrap(ExprKind::Do(vec![DoItem::Expr(var(1, X)), DoItem::Expr(inner(2))])),
        wrap(ExprKind::Do(vec![DoItem::Bind(pvar(1, X), inner(2))])),
        wrap(ExprKind::Do(vec![DoItem::Let(vec![Declaration::ValueDeclaration {
            name: X,
            params: vec![pvar(1, Y)],
            expr: rhs(inner(2)),
        }])])),
        wrap(ExprKind::Ado(vec![DoItem::Expr(inner(1))], boxed(var(2, X)))),
        wrap(ExprKind::Ado(vec![], boxed(inner(1)))),
        wrap(ExprKind::Negate(boxed(inner(1)))),
    ]
}

#[test]
fn plain_expressions_are_proper() {
    assert!(var(0, X).is_proper());
    assert!(Located(at(0), ExprKind::Wildcard).is_proper());
    assert!(Located(at(0), ExprKind::Literal(Literal::Integer(1))).is_proper());
    assert!(Located(at(0), ExprKind::Literal(Literal::String("s".to_string()))).is_proper());
    assert!(Located(at(0), ExprKind::Literal(Literal::Array(vec![]))).is_proper());
    assert!(Located(at(0), ExprKind::DataConstructor(QualifiedName::new(None, F))).is_proper());
    assert!(Located(at(0), ExprKind::Operator(InfixOp::Symbol(F))).is_proper());
    assert!(Located(at(0), ExprKind::Do(vec![])).is_proper());
}

#[test]
fn parser_forms_are_not_proper() {
    assert!(!suffix(0).is_proper());
    assert!(!named(0).is_proper());
    assert!(!Located(at(0), ExprKind::RecordUpdateSuffix(vec![])).is_proper());
}

#[test]
fn every_form_is_proper_around_a_proper_expression() {
    let proper: fn(usize) -> Expr = |start| var(start, Y);
    for e in around(proper) {
        assert!(e.is_proper(), "{:?}", e);
    }
}

#[test]
fn no_form_is_proper_around_a_suffix() {
    for e in around(suffix) {
        assert!(!e.is_proper(), "{:?}", e);
    }
}

#[test]
fn no_form_is_proper_around_a_named_pattern() {
    for e in around(named) {
        assert!(!e.is_proper(), "{:?}", e);
    }
}

#[test]
fn parser_form_is_found_two_levels_down() {
    for inner in around(suffix) {
        let outer = Located(
            SourceSpan::new(0, 20),
            ExprKind::App(boxed(var(0, F)), vec![var(1, X), inner]),
        );
        assert!(!outer.is_proper());
    }
}

#[test]
fn patterns_do_not_count() {
    // The parameters of a lambda are patterns: what they hold is no
    // expression.
    let lambda = Located(
        SourceSpan::new(0, 9),
        ExprKind::Lam(
            vec![Located(at(1), PatKind::Named(X, Box::new(pvar(3, Y))))],
            boxed(var(8, X)),
        ),
    );
    assert!(lambda.is_proper());
}

#[test]
fn attaching_record_updates_gives_a_proper_application() {
    let app = Located(
        SourceSpan::new(0, 9),
        apply_record_updates(var(0, F), vec![var(2, X), suffix(4), suffix(6), var(8, Y)]),
    );
    assert!(app.is_proper());
    let app = Located(SourceSpan::new(0, 9), apply_record_updates(var(0, F), vec![suffix(2)]));
    assert!(app.is_proper());
}

#[test]
fn application_of_proper_expressions_is_proper() {
    let fx = Located(SourceSpan::new(0, 3), normalize_app(var(0, F), var(2, X)));
    assert!(fx.is_proper());
    let fxy = Located(SourceSpan::new(0, 5), normalize_app(fx, var(4, Y)));
    assert!(fxy.is_proper());
    let bad = Located(SourceSpan::new(0, 5), normalize_app(var(0, F), named(2)));
    assert!(!bad.is_proper());
}

#[test]
fn named_pattern_is_read_as_a_pattern() {
    assert_eq!(
        expr_to_pat(named(0)),
        Ok(Located(at(0), PatKind::Named(X, Box::new(pvar(0, Y)))))
    );
}

#[test]
fn operators_and_right_hand_sides_are_checked_alone() {
    assert!(InfixOp::Symbol(F).is_proper());
    assert!(InfixOp::Backtick(boxed(var(0, F))).is_proper());
    assert!(!InfixOp::Backtick(boxed(suffix(0))).is_proper());
    assert!(rhs(var(0, X)).is_proper());
    assert!(!rhs(named(0)).is_proper());
    assert!(PossiblyGuardedExpr::Guarded(vec![]).is_proper());
    assert!(Declaration::TypeSignature { name: X, type_: int_type() }.is_proper());
    assert!(!Declaration::Destructuring { pat: pvar(0, X), expr: rhs(suffix(1)) }.is_proper());
}
