use eldiro::binding_def::BindingDef;
use eldiro::expr::{Expr, Number, Op};

#[test]
fn binding_def_parse_binding_def() {
    assert_eq!(
        BindingDef::new("let a = 10 / 2"),
        Ok((
            "",
            BindingDef {
                name: String::from("a"),
                val: Expr::Operation {
                    lhs: Box::new(Expr::Number(Number(10))),
                    rhs: Box::new(Expr::Number(Number(2))),
                    op: Op::Div
                }
            }
        ))
    );
}

#[test]
fn cannot_parse_binding_def_without_space_after_let() {
    assert_eq!(
        BindingDef::new("letaaa=1+2"),
        Err("expected whitespace".to_owned())
    );
}
