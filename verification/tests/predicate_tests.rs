use isekai::predicate::{FunctionPolicyDef, FunctionPolicyError, NumOrd};

#[test]
fn get_num() {
    let d = FunctionPolicyDef::new(">100");
    let (ord, value) = d.get_num();
    assert_eq!(ord, NumOrd::GT);
    assert_eq!(value, 100);
    assert_eq!(d.assert_value(101), Ok(true));
    assert_eq!(d.assert_value(100), Ok(false));

    let d = FunctionPolicyDef::new("<100");
    let (ord, value) = d.get_num();
    assert_eq!(ord, NumOrd::LT);
    assert_eq!(value, 100);
    assert_eq!(d.assert_value(99), Ok(true));
    assert_eq!(d.assert_value(100), Ok(false));

    let d = FunctionPolicyDef::new("=100");
    let (ord, value) = d.get_num();
    assert_eq!(ord, NumOrd::EQ);
    assert_eq!(value, 100);
    assert_eq!(d.assert_value(100), Ok(true));
    assert_eq!(d.assert_value(101), Ok(false));

    let d = FunctionPolicyDef::new("=<100");
    let (ord, value) = d.get_num();
    assert_eq!(ord, NumOrd::LE);
    assert_eq!(value, 100);
    assert_eq!(d.assert_value(99), Ok(true));
    assert_eq!(d.assert_value(100), Ok(true));
    assert_eq!(d.assert_value(101), Ok(false));

    let d = FunctionPolicyDef::new("=>100");
    let (ord, value) = d.get_num();
    assert_eq!(ord, NumOrd::GE);
    assert_eq!(value, 100);
    assert_eq!(d.assert_value(101), Ok(true));
    assert_eq!(d.assert_value(100), Ok(true));
    assert_eq!(d.assert_value(99), Ok(false));
}

#[test]
fn unknown_predicate_fails() {
    let d = FunctionPolicyDef::new("foo");
    let (ord, value) = d.get_num();
    assert_eq!(ord, NumOrd::UN);
    assert_eq!(value, 0);
    assert_eq!(d.assert_value(5), Err(FunctionPolicyError));
}

#[test]
fn bare_number_is_unknown() {
    let d = FunctionPolicyDef::new("100");
    let (ord, value) = d.get_num();
    assert_eq!(ord, NumOrd::UN);
    assert_eq!(value, 0);
}

#[test]
fn negative_bound() {
    let d = FunctionPolicyDef::new(">-5");
    let (ord, value) = d.get_num();
    assert_eq!(ord, NumOrd::GT);
    assert_eq!(value, -5);
    assert_eq!(d.assert_value(-4), Ok(true));
    assert_eq!(d.assert_value(-5), Ok(false));
}

#[test]
fn overflowing_bound_is_unknown() {
    let d = FunctionPolicyDef::new(">99999999999999999999999999");
    let (ord, value) = d.get_num();
    assert_eq!(ord, NumOrd::UN);
    assert_eq!(value, 0);
}
