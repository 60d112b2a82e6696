use eldiro::expr::{Expr, Number, Op};
use eldiro::parse;
use eldiro::Env;
use eldiro::Val;

#[test]
fn eval_one_plus_two() {
    let p = parse("1+2").unwrap();
    assert_eq!(p.eval(&mut Env::default()), Ok(Val::Number(3)));
}

#[test]
fn eval_subtraction() {
    let p = parse("10-4").unwrap();
    assert_eq!(p.eval(&mut Env::default()), Ok(Val::Number(6)));
}

#[test]
fn eval_truncating_division() {
    let p = parse("7/2").unwrap();
    assert_eq!(p.eval(&mut Env::default()), Ok(Val::Number(3)));
}

#[test]
fn single_level_infix_rejects_chained_operators() {
    assert_eq!(
        parse("1+2*3").map(|_| ()),
        Err("input was not consumed fully by parser.".to_owned())
    );
}

#[test]
fn eval_block_with_binding() {
    let p = parse("{ let a = 5\na }").unwrap();
    assert_eq!(p.eval(&mut Env::default()), Ok(Val::Number(5)));
}

#[test]
fn bare_statements_need_a_block() {
    assert_eq!(
        parse("let a = 5\na").map(|_| ()),
        Err("input was not consumed fully by parser.".to_owned())
    );
}

#[test]
fn undefined_binding_is_reported() {
    let p = parse("doesnotexist").unwrap();
    assert_eq!(
        p.eval(&mut Env::default()),
        Err("binding with name 'doesnotexist' does not exist".to_owned())
    );
}

#[test]
fn call_with_wrong_arity_is_reported() {
    let mut env = Env::default();
    parse("fn add x y => x + y").unwrap().eval(&mut env).unwrap();
    assert_eq!(
        parse("add 1").unwrap().eval(&mut env),
        Err("expected 2 parameters, got 1".to_owned())
    );
}

#[test]
fn call_with_matching_arity_yields_value() {
    let mut env = Env::default();
    parse("fn add x y => x + y").unwrap().eval(&mut env).unwrap();
    assert_eq!(parse("add 1 2").unwrap().eval(&mut env), Ok(Val::Number(3)));
}

#[test]
fn binding_is_invisible_once_its_block_ends() {
    let p = parse("{ { let a = 5\na }\na }").unwrap();
    assert_eq!(
        p.eval(&mut Env::default()),
        Err("binding with name 'a' does not exist".to_owned())
    );
}

#[test]
fn nested_block_reads_outer_binding() {
    let p = parse("{ let a = 7\n{ a } }").unwrap();
    assert_eq!(p.eval(&mut Env::default()), Ok(Val::Number(7)));
}

#[test]
fn evaluation_is_deterministic_across_fresh_environments() {
    let p = parse("{ let a = 2\na + 3 }").unwrap();
    let first = p.eval(&mut Env::default());
    let second = p.eval(&mut Env::default());
    assert_eq!(first, Ok(Val::Number(5)));
    assert_eq!(first, second);
}

#[test]
fn number_literal_out_of_range_is_rejected() {
    assert_eq!(
        Number::new("99999999999"),
        Err("number literal out of range".to_owned())
    );
}

#[test]
fn largest_number_literal_parses() {
    assert_eq!(Number::new("2147483647"), Ok(("", Number(2147483647))));
}

#[test]
fn division_by_zero_is_reported() {
    let p = parse("1/0").unwrap();
    assert_eq!(p.eval(&mut Env::default()), Err("division by zero".to_owned()));
}

#[test]
fn numeric_overflow_is_reported() {
    let e = Expr::Operation {
        lhs: Box::new(Expr::Number(Number(2147483647))),
        rhs: Box::new(Expr::Number(Number(1))),
        op: Op::Add,
    };
    assert_eq!(e.eval(&Env::default()), Err("numeric overflow".to_owned()));
}

#[test]
fn runaway_recursion_is_reported() {
    let p = parse("{ fn f => f\nf }").unwrap();
    assert_eq!(
        p.eval(&mut Env::default()),
        Err("call depth limit exceeded".to_owned())
    );
}

#[test]
fn redefinition_in_one_frame_takes_the_last_write() {
    let p = parse("{ let a = 1\nlet a = 2\na }").unwrap();
    assert_eq!(p.eval(&mut Env::default()), Ok(Val::Number(2)));
}

#[test]
fn empty_block_evaluates_to_unit() {
    let p = parse("{}").unwrap();
    assert_eq!(p.eval(&mut Env::default()), Ok(Val::Unit));
}

#[test]
fn trailing_whitespace_is_leftover_input() {
    assert_eq!(
        parse("1+2 ").map(|_| ()),
        Err("input was not consumed fully by parser.".to_owned())
    );
}

#[test]
fn zero_parameter_function_is_called_by_bare_name() {
    let p = parse("{ fn five => 5\nfive }").unwrap();
    assert_eq!(p.eval(&mut Env::default()), Ok(Val::Number(5)));
}

#[test]
fn bare_name_of_parameterised_function_is_an_undefined_binding() {
    let p = parse("{ fn g x => x\ng }").unwrap();
    assert_eq!(
        p.eval(&mut Env::default()),
        Err("binding with name 'g' does not exist".to_owned())
    );
}

#[test]
fn operands_must_be_numbers() {
    let p = parse("{}+1").unwrap();
    assert_eq!(
        p.eval(&mut Env::default()),
        Err("cannot evaluate operation whose operands are not numbers".to_owned())
    );
}

#[test]
fn function_body_sees_caller_scope() {
    let mut env = Env::default();
    parse("fn addbase x => x + base").unwrap().eval(&mut env).unwrap();
    assert_eq!(
        parse("{ let base = 100\naddbase 7 }").unwrap().eval(&mut env),
        Ok(Val::Number(107))
    );
}

#[test]
fn name_directly_followed_by_a_brace_is_not_a_call() {
    assert_eq!(
        parse("add{1}").map(|_| ()),
        Err("input was not consumed fully by parser.".to_owned())
    );
}
