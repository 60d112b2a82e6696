use eldiro::expr::binding_usage::BindingUsage;
use eldiro::expr::block::Block;
use eldiro::expr::{Expr, Op};
use eldiro::func_def::FuncDef;
use eldiro::stmt::Stmt;

#[test]
fn parse_func_def_with_no_params_and_empty_body() {
    assert_eq!(
        FuncDef::new("fn nothing => {}"),
        Ok((
            "",
            FuncDef {
                name: "nothing".to_owned(),
                params: vec![],
                body: Box::new(Stmt::Expr(Expr::Block(Block { stmts: vec![] })))
            }
        ))
    );
}

#[test]
fn parse_func_def_with_one_param_and_empty_body() {
    assert_eq!(
        FuncDef::new("fn greet name => {}"),
        Ok((
            "",
            FuncDef {
                name: "greet".to_owned(),
                params: vec!["name".to_owned()],
                body: Box::new(Stmt::Expr(Expr::Block(Block { stmts: vec![] })))
            }
        ))
    )
}

#[test]
fn parse_func_def_with_multiple_params() {
    assert_eq!(
        FuncDef::new("fn add x y => x + y"),
        Ok((
            "",
            FuncDef {
                name: "add".to_owned(),
                params: vec!["x".to_owned(), "y".to_owned()],
                body: Box::new(Stmt::Expr(Expr::Operation {
                    lhs: Box::new(Expr::BindingUsage(BindingUsage {
                        name: "x".to_owned()
                    })),
                    rhs: Box::new(Expr::BindingUsage(BindingUsage {
                        name: "y".to_owned()
                    })),
                    op: Op::Add
                }))
            }
        ))
    )
}
