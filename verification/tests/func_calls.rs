use eldiro::expr::binding_usage::BindingUsage;
use eldiro::expr::func_call::FuncCall;
use eldiro::expr::{Expr, Number, Op};
use eldiro::stmt::Stmt;
use eldiro::Env;
use eldiro::Val;

#[test]
fn func_call_eval_func_call() {
    let mut env = Env::default();

    env.store_func(
        "id".to_owned(),
        vec!["x".to_owned()],
        Stmt::Expr(Expr::BindingUsage(BindingUsage {
            name: "x".to_owned(),
        })),
    );

    assert_eq!(
        FuncCall {
            callee: "id".to_owned(),
            params: vec![Expr::Number(Number(10))]
        }
        .eval(&env),
        Ok(Val::Number(10))
    )
}

#[test]
fn eval_non_existent_func_call() {
    let env = Env::default();

    assert_eq!(
        FuncCall {
            callee: "i_dont_exist".to_owned(),
            params: vec![]
        }
        .eval(&env),
        Err("function with name 'i_dont_exist' does not exist.".to_owned())
    );
}

#[test]
fn eval_func_call_with_too_few_parameters() {
    let mut env = Env::default();

    env.store_func(
        "mul".to_owned(),
        vec!["x".to_owned(), "y".to_owned()],
        Stmt::Expr(Expr::Operation {
            lhs: Box::new(Expr::BindingUsage(BindingUsage {
                name: "x".to_owned(),
            })),
            rhs: Box::new(Expr::BindingUsage(BindingUsage {
                name: "y".to_owned(),
            })),
            op: Op::Mul,
        }),
    );

    assert_eq!(
        FuncCall {
            callee: "mul".to_owned(),
            params: vec![Expr::Number(Number(100))]
        }
        .eval(&env),
        Err("expected 2 parameters, got 1".to_owned())
    );
}

#[test]
fn parse_func_call_needs_a_space_before_the_first_argument() {
    assert_eq!(
        FuncCall::new("add{1}"),
        Err("expected whitespace".to_owned())
    );
}

#[test]
fn parse_func_call_needs_at_least_one_argument() {
    assert_eq!(
        FuncCall::new("add "),
        Err("expected a sequence with more than one itme".to_owned())
    );
}
