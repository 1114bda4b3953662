use frut_natives::natives::complete_host;
use frut_natives::natives::invoke;
use frut_natives::natives::HostOp;
use frut_natives::natives::HostReply;
use frut_natives::natives::MathFn;
use frut_natives::natives::NativeOutcome;
use frut_natives::NativeId;
use frut_natives::Value;

fn int_result(outcome: NativeOutcome) -> i64 {
    match outcome {
        NativeOutcome::Done(Ok(Value::Int(n))) => n,
        other => panic!("expected an int result, got {:?}", other),
    }
}

fn double_result(outcome: NativeOutcome) -> f64 {
    match outcome {
        NativeOutcome::Done(Ok(Value::Double(b))) => f64::from_bits(b),
        other => panic!("expected a double result, got {:?}", other),
    }
}

fn err_result(outcome: NativeOutcome) -> String {
    match outcome {
        NativeOutcome::Done(Err(m)) => m,
        other => panic!("expected a failure, got {:?}", other),
    }
}

fn d(x: f64) -> Value {
    Value::Double(x.to_bits())
}

#[test]
fn integer_extrema_and_clamp() {
    assert_eq!(int_result(invoke(NativeId::MinI, &vec![Value::Int(3), Value::Int(7)])), 3);
    assert_eq!(int_result(invoke(NativeId::MaxI, &vec![Value::Int(3), Value::Int(7)])), 7);
    assert_eq!(
        int_result(invoke(NativeId::ClampI, &vec![Value::Int(10), Value::Int(0), Value::Int(5)])),
        5
    );
    assert_eq!(
        int_result(invoke(NativeId::ClampI, &vec![Value::Int(-4), Value::Int(0), Value::Int(5)])),
        0
    );
    assert_eq!(
        int_result(invoke(NativeId::ClampI, &vec![Value::Int(2), Value::Int(0), Value::Int(5)])),
        2
    );
}

#[test]
fn integer_abs() {
    assert_eq!(int_result(invoke(NativeId::AbsI, &vec![Value::Int(-5)])), 5);
    assert_eq!(int_result(invoke(NativeId::AbsI, &vec![Value::Int(9)])), 9);
    assert_eq!(int_result(invoke(NativeId::AbsI, &vec![Value::Int(0)])), 0);
    assert_eq!(int_result(invoke(NativeId::AbsI, &vec![Value::Int(i64::MIN)])), i64::MIN);
}

#[test]
fn double_abs_and_extrema() {
    assert_eq!(double_result(invoke(NativeId::AbsD, &vec![d(-5.0)])), 5.0);
    assert_eq!(double_result(invoke(NativeId::AbsD, &vec![d(2.25)])), 2.25);
    assert_eq!(double_result(invoke(NativeId::MaxD, &vec![d(2.5), d(-1.0)])), 2.5);
    assert_eq!(double_result(invoke(NativeId::MinD, &vec![d(2.5), d(-1.0)])), -1.0);
    for (a, b) in [(1.5, 2.5), (-3.0, 0.25), (7.5, 7.5), (-0.5, -8.25)] {
        assert_eq!(double_result(invoke(NativeId::MinD, &vec![d(a), d(b)])), a.min(b));
        assert_eq!(double_result(invoke(NativeId::MaxD, &vec![d(a), d(b)])), a.max(b));
    }
}

#[test]
fn double_extrema_ignore_nan() {
    assert_eq!(double_result(invoke(NativeId::MinD, &vec![d(f64::NAN), d(4.0)])), 4.0);
    assert_eq!(double_result(invoke(NativeId::MaxD, &vec![d(4.0), d(f64::NAN)])), 4.0);
}

#[test]
fn double_clamp() {
    assert_eq!(double_result(invoke(NativeId::ClampD, &vec![d(10.0), d(0.0), d(5.0)])), 5.0);
    assert_eq!(double_result(invoke(NativeId::ClampD, &vec![d(-2.0), d(0.0), d(5.0)])), 0.0);
    assert_eq!(double_result(invoke(NativeId::ClampD, &vec![d(3.5), d(0.0), d(5.0)])), 3.5);
    let msg = err_result(invoke(NativeId::ClampD, &vec![d(1.0), d(5.0), d(0.0)]));
    assert_eq!(msg, "clamp_d expects min <= max");
}

#[test]
fn clamp_i_rejects_inverted_bounds() {
    let msg = err_result(invoke(NativeId::ClampI, &vec![Value::Int(1), Value::Int(5), Value::Int(0)]));
    assert_eq!(msg, "clamp_i expects min <= max");
}

#[test]
fn pi_is_the_double_nearest_pi() {
    assert_eq!(double_result(invoke(NativeId::Pi, &vec![])), std::f64::consts::PI);
}

#[test]
fn factorial_small_values() {
    assert_eq!(int_result(invoke(NativeId::Factorial, &vec![Value::Int(0)])), 1);
    assert_eq!(int_result(invoke(NativeId::Factorial, &vec![Value::Int(1)])), 1);
    assert_eq!(int_result(invoke(NativeId::Factorial, &vec![Value::Int(5)])), 120);
    assert_eq!(
        int_result(invoke(NativeId::Factorial, &vec![Value::Int(20)])),
        2432902008176640000
    );
}

#[test]
fn factorial_rejects_negative_input() {
    let msg = err_result(invoke(NativeId::Factorial, &vec![Value::Int(-1)]));
    assert_eq!(msg, "factorial expects non-negative int");
}

#[test]
fn factorial_fails_on_overflow_instead_of_wrapping() {
    let msg = err_result(invoke(NativeId::Factorial, &vec![Value::Int(21)]));
    assert_eq!(msg, "factorial overflow");
    let msg = err_result(invoke(NativeId::Factorial, &vec![Value::Int(1000)]));
    assert_eq!(msg, "factorial overflow");
}

#[test]
fn sqrt_rejects_negative_input() {
    let msg = err_result(invoke(NativeId::Sqrt, &vec![d(-1.0)]));
    assert_eq!(msg, "sqrt expects non-negative double");
}

#[test]
fn sqrt_of_four_is_two() {
    match invoke(NativeId::Sqrt, &vec![d(4.0)]) {
        NativeOutcome::Host(op) => {
            let bits = match op {
                HostOp::Math1 { f: MathFn::Sqrt, a } => f64::from_bits(a).sqrt().to_bits(),
                other => panic!("expected a square root request, got {:?}", other),
            };
            match complete_host(&op, HostReply::Bits(bits)) {
                Ok(Value::Double(b)) => assert_eq!(f64::from_bits(b), 2.0),
                other => panic!("expected a double, got {:?}", other),
            }
        }
        other => panic!("expected a host request, got {:?}", other),
    }
}

#[test]
fn trigonometry_requests_the_host_evaluation() {
    match invoke(NativeId::Sin, &vec![d(0.5)]) {
        NativeOutcome::Host(HostOp::Math1 { f: MathFn::Sin, a }) => {
            assert_eq!(f64::from_bits(a), 0.5);
        }
        other => panic!("expected a sine request, got {:?}", other),
    }
    match invoke(NativeId::Atan2, &vec![d(1.0), d(2.0)]) {
        NativeOutcome::Host(HostOp::Atan2 { y, x }) => {
            assert_eq!(f64::from_bits(y), 1.0);
            assert_eq!(f64::from_bits(x), 2.0);
        }
        other => panic!("expected an atan2 request, got {:?}", other),
    }
}

#[test]
fn variant_mismatches_fail_descriptively() {
    let msg = err_result(invoke(NativeId::MinI, &vec![d(1.0), Value::Int(2)]));
    assert_eq!(msg, "min_i expects (int,int)");
    let msg = err_result(invoke(NativeId::MinD, &vec![Value::Int(1), d(2.0)]));
    assert_eq!(msg, "min_d expects (double,double)");
    let msg = err_result(invoke(NativeId::Sqrt, &vec![Value::Bool(true)]));
    assert_eq!(msg, "sqrt expects (double)");
    let msg = err_result(invoke(NativeId::Factorial, &vec![Value::Void]));
    assert_eq!(msg, "factorial expects (int)");
}
