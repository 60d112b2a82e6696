use eldiro::expr::binding_usage::BindingUsage;
use eldiro::Env;
use eldiro::Val;

#[test]
fn binding_usage_parse_binding_usage() {
    assert_eq!(
        BindingUsage::new("abc"),
        Ok((
            "",
            BindingUsage {
                name: "abc".to_owned()
            }
        ))
    );
}

#[test]
fn eval_existing_binding_usage() {
    let mut env = Env::default();
    env.store_binding("foo".to_string(), Val::Number(3));

    assert_eq! {
        BindingUsage {
            name: "foo".to_owned()
        }.eval(&env),
        Ok(Val::Number(3))
    };
}

#[test]
fn eval_non_existing_binding_usage() {
    let env = Env::default();

    assert_eq! {
        BindingUsage {
            name: "foo".to_owned()
        }.eval(&env),
        Err("binding with name 'foo' does not exist".to_owned())
    }
}
