use rooting::arith::{add, div, minus_one, mul, plus_one, sub, Number, NumberValue};
use rooting::object::Arena;

#[test]
fn test_add() {
    let arena = Arena::new();

    let num = add(&[], &arena).val();
    assert_eq!(num, NumberValue::Int(0));

    let args = vec![Number::from(7), Number::from(13)];
    let num = add(&args, &arena).val();
    assert_eq!(num, NumberValue::Int(20));
}

#[test]
fn test_sub() {
    let arena = Arena::new();

    let num = sub(None, &[], &arena).val();
    assert_eq!(num, NumberValue::Int(0));

    let num = sub(Some(7.into()), &[], &arena).val();
    assert_eq!(num, NumberValue::Int(-7));

    let args = vec![Number::from(13)];
    let num = sub(Some(7.into()), &args, &arena).val();
    assert_eq!(num, NumberValue::Int(-6));
}

#[test]
fn test_mul() {
    let arena = Arena::new();
    let num = mul(&[], &arena).val();
    assert_eq!(num, NumberValue::Int(1));

    let args = vec![Number::from(7), Number::from(13)];
    let num = mul(&args, &arena).val();
    assert_eq!(num, NumberValue::Int(91));
}

#[test]
fn test_div() {
    let arena = Arena::new();
    let twelve = Number::from_float_bits((12.0f64).to_bits());
    let num = div(twelve, &[], &arena).val();
    assert_eq!(num, NumberValue::Float((12.0f64).to_bits()));

    let args = vec![Number::from(5), Number::from(2)];
    let num = div(12.into(), &args, &arena).val();
    assert_eq!(num, NumberValue::Int(1));
}

#[test]
fn div_truncates_toward_zero() {
    let arena = Arena::new();
    let args = vec![Number::from(2)];
    assert_eq!(
        div(Number::from(-7), &args, &arena).val(),
        NumberValue::Int(-3)
    );
    let args = vec![Number::from(-2)];
    assert_eq!(
        div(Number::from(-7), &args, &arena).val(),
        NumberValue::Int(3)
    );
    assert_eq!(
        div(Number::from(7), &args, &arena).val(),
        NumberValue::Int(-3)
    );
}

#[test]
fn div_survives_the_smallest_dividend() {
    let arena = Arena::new();
    let args = vec![Number::from(1)];
    assert_eq!(
        div(Number::from(i64::MIN), &args, &arena).val(),
        NumberValue::Int(i64::MIN)
    );
    let args = vec![Number::from(i64::MIN)];
    assert_eq!(
        div(Number::from(i64::MIN), &args, &arena).val(),
        NumberValue::Int(1)
    );
}

#[test]
fn sub_negates_a_lone_argument() {
    let arena = Arena::new();
    let num = sub(Some(Number::from(-13)), &[], &arena).val();
    assert_eq!(num, NumberValue::Int(13));
}

#[test]
fn successor_and_predecessor() {
    assert_eq!(plus_one(Number::from(41)).val(), NumberValue::Int(42));
    assert_eq!(minus_one(Number::from(0)).val(), NumberValue::Int(-1));
}
