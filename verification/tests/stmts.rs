use eldiro::binding_def::BindingDef;
use eldiro::expr::binding_usage::BindingUsage;
use eldiro::expr::{Expr, Number, Op};
use eldiro::func_def::FuncDef;
use eldiro::stmt::Stmt;
use eldiro::Env;
use eldiro::Val;

#[test]
fn stmt_parse_binding_def() {
    assert_eq!(
        Stmt::new("let x = 3"),
        Ok((
            "",
            Stmt::BindingDef(BindingDef {
                name: "x".to_owned(),
                val: Expr::Number(Number(3)),
            })
        ))
    );
}

#[test]
fn parse_expression() {
    assert_eq!(
        Stmt::new("1+1"),
        Ok((
            "",
            Stmt::Expr(Expr::Operation {
                lhs: Box::new(Expr::Number(Number(1))),
                rhs: Box::new(Expr::Number(Number(1))),
                op: Op::Add
            })
        ))
    );
}

#[test]
fn parse_func_def() {
    assert_eq!(
        Stmt::new("fn identity x => x"),
        Ok((
            "",
            Stmt::FuncDef(FuncDef {
                name: "identity".to_owned(),
                params: vec!["x".to_owned()],
                body: Box::new(Stmt::Expr(Expr::BindingUsage(BindingUsage {
                    name: "x".to_owned()
                })))
            })
        ))
    );
}

#[test]
fn eval_func_def() {
    assert_eq!(
        Stmt::FuncDef(FuncDef {
            name: "always_return_one".to_owned(),
            params: vec![],
            body: Box::new(Stmt::Expr(Expr::Number(Number(1))))
        })
        .eval(&mut Env::default()),
        Ok(Val::Unit)
    );
}
