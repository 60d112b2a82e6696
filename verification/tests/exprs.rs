use eldiro::expr::binding_usage::BindingUsage;
use eldiro::expr::block::Block;
use eldiro::expr::func_call::FuncCall;
use eldiro::expr::{Expr, Number, Op};
use eldiro::stmt::Stmt;
use eldiro::Env;
use eldiro::Val;

#[test]
fn parse_number() {
    assert_eq!(Number::new("123"), Ok(("", Number(123))));
}

#[test]
fn parse_add_op() {
    assert_eq!(Op::new("+"), Ok(("", Op::Add)));
}

#[test]
fn parse_sub_op() {
    assert_eq!(Op::new("-"), Ok(("", Op::Sub)));
}

#[test]
fn parse_mul_op() {
    assert_eq!(Op::new("*"), Ok(("", Op::Mul)));
}

#[test]
fn parse_div_op() {
    assert_eq!(Op::new("/"), Ok(("", Op::Div)));
}

#[test]
fn parse_wrong_op() {
    assert_eq!(Op::new("_"), Err("expected /".to_owned()));
}

#[test]
fn parse_one_plus_two() {
    assert_eq!(
        Expr::new("1+2"),
        Ok((
            "",
            Expr::Operation {
                lhs: Box::new(Expr::Number(Number(1))),
                op: Op::Add,
                rhs: Box::new(Expr::Number(Number(2))),
            }
        ))
    );
}

#[test]
fn parse_expr_with_whitespace() {
    assert_eq!(
        Expr::new("2 * 2"),
        Ok((
            "",
            Expr::Operation {
                lhs: Box::new(Expr::Number(Number(2))),
                rhs: Box::new(Expr::Number(Number(2))),
                op: Op::Mul,
            }
        ))
    );
}

#[test]
fn eval_add() {
    assert_eq!(
        Expr::Operation {
            lhs: Box::new(Expr::Number(Number(10))),
            rhs: Box::new(Expr::Number(Number(10))),
            op: Op::Add,
        }
        .eval(&Env::default()),
        Ok(Val::Number(20))
    );
}

#[test]
fn eval_sub() {
    assert_eq!(
        Expr::Operation {
            lhs: Box::new(Expr::Number(Number(1))),
            rhs: Box::new(Expr::Number(Number(5))),
            op: Op::Sub,
        }
        .eval(&Env::default()),
        Ok(Val::Number(-4))
    );
}

#[test]
fn eval_mul() {
    assert_eq!(
        Expr::Operation {
            lhs: Box::new(Expr::Number(Number(5))),
            rhs: Box::new(Expr::Number(Number(4))),
            op: Op::Mul,
        }
        .eval(&Env::default()),
        Ok(Val::Number(20))
    );
}

#[test]
fn eval_div() {
    assert_eq!(
        Expr::Operation {
            lhs: Box::new(Expr::Number(Number(1460))),
            rhs: Box::new(Expr::Number(Number(7))),
            op: Op::Div,
        }
        .eval(&Env::default()),
        Ok(Val::Number(208))
    );
}

#[test]
fn parse_number_as_expr() {
    assert_eq!(Expr::new("3"), Ok(("", Expr::Number(Number(3)))));
}

#[test]
fn expr_parse_binding_usage() {
    assert_eq!(
        Expr::new("bar"),
        Ok((
            "",
            Expr::BindingUsage(BindingUsage {
                name: "bar".to_owned()
            })
        ))
    )
}

#[test]
fn expr_parse_block() {
    assert_eq!(
        Expr::new("{ 200 }"),
        Ok((
            "",
            Expr::Block(Block {
                stmts: vec![Stmt::Expr(Expr::Number(Number(200)))],
            }),
        )),
    );
}

#[test]
fn eval_non_number_operation() {
    assert_eq!(
        Expr::Operation {
            lhs: Box::new(Expr::Number(Number(10))),
            rhs: Box::new(Expr::Block(Block { stmts: vec![] })),
            op: Op::Add,
        }
        .eval(&Env::default()),
        Err("cannot evaluate operation whose operands are not numbers".to_owned())
    )
}

#[test]
fn parse_func_call() {
    assert_eq!(
        Expr::new("add 1 2"),
        Ok((
            "",
            Expr::FuncCall(FuncCall {
                callee: "add".to_owned(),
                params: vec![Expr::Number(Number(1)), Expr::Number(Number(2))]
            })
        ))
    );
}

#[test]
fn expr_eval_func_call() {
    let mut env = Env::default();

    env.store_func(
        "add".to_owned(),
        vec!["x".to_owned(), "y".to_owned()],
        Stmt::Expr(Expr::Operation {
            lhs: Box::new(Expr::BindingUsage(BindingUsage {
                name: "x".to_owned(),
            })),
            rhs: Box::new(Expr::BindingUsage(BindingUsage {
                name: "y".to_owned(),
            })),
            op: Op::Add,
        }),
    );

    assert_eq!(
        Expr::FuncCall(FuncCall {
            callee: "add".to_owned(),
            params: vec![Expr::Number(Number(2)), Expr::Number(Number(2))]
        })
        .eval(&env),
        Ok(Val::Number(4))
    );
}
