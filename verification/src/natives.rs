use vstd::arithmetic::div_mod::lemma_fundamental_div_mod;
use vstd::arithmetic::mul::lemma_mul_inequality;
use vstd::prelude::*;
use vstd::string::StringExecFns;

use crate::catalog::native_arity;
use crate::catalog::native_params;
use crate::double_bits::abs_bits;
use crate::double_bits::abs_bits_exec;
use crate::double_bits::clamp_bits;
use crate::double_bits::clamp_bits_exec;
use crate::double_bits::is_neg_bits;
use crate::double_bits::is_neg_bits_exec;
use crate::double_bits::max_bits;
use crate::double_bits::max_bits_exec;
use crate::double_bits::min_bits;
use crate::double_bits::min_bits_exec;
use crate::double_bits::valid_clamp_bounds;
use crate::double_bits::valid_clamp_bounds_exec;
use crate::double_bits::PI_BITS;
use crate::text::strip_line_breaks;
use crate::text::strip_trailing_line_breaks;
use crate::values::NativeId;
use crate::values::Value;

verus! {

/// A unary floating-point function that only the embedding can evaluate.
#[derive(Clone, Copy, PartialEq, Eq, Structural, Debug)]
pub enum MathFn {
    Sqrt,
    Sin,
    Cos,
    Tan,
    Asin,
    Acos,
    Atan,
}

/// Work that a native function needs from the embedding: stream output,
/// one blocking line read, or a floating-point evaluation.  The verified
/// core decides which operation is due and validates everything around it;
/// the embedding performs the operation and hands the result back to
/// `complete_host`.
#[derive(Clone, Debug)]
pub enum HostOp {
    Write { text: String, newline: bool },
    ReadLine { prompt: String },
    Math1 { f: MathFn, a: u64 },
    Atan2 { y: u64, x: u64 },
}

/// The embedding's answer to one `HostOp`.
#[derive(Debug)]
pub enum HostReply {
    Unit,
    Line(Result<String, String>),
    Bits(u64),
}

/// The outcome of invoking a native function: either a finished result or
/// a request for one host operation.
#[derive(Debug)]
pub enum NativeOutcome {
    Done(Result<Value, String>),
    Host(HostOp),
}

/// `r` is a finished success carrying exactly `v`.
pub open spec fn done_ok(r: NativeOutcome, v: Value) -> bool {
    r == NativeOutcome::Done(Result::<Value, String>::Ok(v))
}

/// `r` is a finished failure whose message reads `msg`.
pub open spec fn done_err(r: NativeOutcome, msg: Seq<char>) -> bool {
    r matches NativeOutcome::Done(Result::Err(s)) && s@ == msg
}

/// The smaller of two 64-bit signed integers.
pub open spec fn min_i64(a: i64, b: i64) -> i64 {
    if a <= b {
        a
    } else {
        b
    }
}

/// The larger of two 64-bit signed integers.
pub open spec fn max_i64(a: i64, b: i64) -> i64 {
    if a <= b {
        b
    } else {
        a
    }
}

/// Absolute value on 64-bit signed integers, wrapping on the one value
/// whose magnitude has no positive counterpart.
pub open spec fn abs_i64(n: i64) -> i64 {
    if n == i64::MIN {
        n
    } else if n < 0 {
        (-(n as int)) as i64
    } else {
        n
    }
}

/// `v` forced into the closed range from `lo` to `hi`.
pub open spec fn clamp_i64(v: i64, lo: i64, hi: i64) -> i64 {
    if v < lo {
        lo
    } else if v > hi {
        hi
    } else {
        v
    }
}

/// The factorial of `n`, with 1 below zero so the function is total.
pub open spec fn spec_factorial(n: int) -> int
    decreases n,
{
    if n <= 0 {
        1
    } else {
        n * spec_factorial(n - 1)
    }
}

/// The factorial of any number is at least 1.
pub proof fn lemma_factorial_pos(n: int)
    ensures
        spec_factorial(n) >= 1,
    decreases n,
{
    if n > 0 {
        lemma_factorial_pos(n - 1);
        lemma_mul_inequality(1, spec_factorial(n - 1), n);
        assert(spec_factorial(n) == n * spec_factorial(n - 1));
        assert(1 * n <= spec_factorial(n - 1) * n);
    }
}

/// The factorial never shrinks as its argument grows.
pub proof fn lemma_factorial_mono(a: int, b: int)
    requires
        0 <= a <= b,
    ensures
        spec_factorial(a) <= spec_factorial(b),
    decreases b - a,
{
    if a < b {
        lemma_factorial_mono(a, b - 1);
        lemma_factorial_pos(b - 1);
        lemma_mul_inequality(1, b, spec_factorial(b - 1));
    }
}

/// The factorial of `n`, or `None` once the true mathematical result
/// exceeds the 64-bit signed range.
pub fn factorial_checked(n: i64) -> (r: Option<i64>)
    requires
        n >= 0,
    ensures
        match r {
            Some(v) => spec_factorial(n as int) <= i64::MAX && v == spec_factorial(n as int),
            None => spec_factorial(n as int) > i64::MAX,
        },
{
    let limit: u64 = 0x7FFF_FFFF_FFFF_FFFF;
    let bound: u64 = n as u64;
    let mut acc: u64 = 1;
    let mut i: u64 = 1;
    while i <= bound
        invariant
            limit == i64::MAX,
            bound == n,
            n >= 0,
            1 <= i <= bound + 1,
            acc == spec_factorial(i - 1),
            acc <= limit,
        decreases bound + 1 - i,
    {
        let q = limit / i;
        if acc > q {
            proof {
                let fi = spec_factorial(i - 1) * i;
                assert(limit as int == i as int * (limit as int / i as int) + limit as int % i
                    as int) by {
                    lemma_fundamental_div_mod(limit as int, i as int);
                }
                assert(acc as int * i as int > limit as int) by (nonlinear_arith)
                    requires
                        (acc as int) >= (q as int) + 1,
                        (i as int) >= 1,
                        (limit as int) == (i as int) * (q as int) + (limit as int) % (i as int),
                        ((limit as int) % (i as int)) < (i as int),
                ;
                assert(i as int >= 1);
                assert(spec_factorial(i as int) == (i as int) * spec_factorial(i as int - 1));
                assert(spec_factorial(i as int) == fi);
                lemma_factorial_mono(i as int, n as int);
            }
            return None;
        }
        proof {
            assert(limit as int == i as int * (limit as int / i as int) + limit as int % i
                as int) by {
                lemma_fundamental_div_mod(limit as int, i as int);
            }
            assert(acc as int * i as int <= limit as int) by (nonlinear_arith)
                requires
                    (acc as int) <= (q as int),
                    (i as int) >= 1,
                    (limit as int) == (i as int) * (q as int) + (limit as int) % (i as int),
                    ((limit as int) % (i as int)) >= 0,
            ;
            assert(i as int >= 1);
            assert(spec_factorial(i as int) == (i as int) * spec_factorial(i as int - 1));
        }
        acc = acc * i;
        i += 1;
    }
    Some(acc as i64)
}

/// What invoking the native function `id` on `args` must produce: the exact
/// finished value or failure message, or the exact host operation, for every
/// well-formed argument list.
pub open spec fn invoke_post(id: NativeId, args: Seq<Value>, r: NativeOutcome) -> bool {
    match id {
        NativeId::Print => match args[0] {
            Value::Str(s) => r matches NativeOutcome::Host(HostOp::Write { text, newline })
                && text@ == s@ && newline == false,
            _ => done_err(r, "print expects (string)"@),
        },
        NativeId::Println => match args[0] {
            Value::Str(s) => r matches NativeOutcome::Host(HostOp::Write { text, newline })
                && text@ == s@ && newline == true,
            _ => done_err(r, "println expects (string)"@),
        },
        NativeId::Input => match args[0] {
            Value::Str(s) => r matches NativeOutcome::Host(HostOp::ReadLine { prompt })
                && prompt@ == s@,
            _ => done_err(r, "input expects (string)"@),
        },
        NativeId::MinI => match (args[0], args[1]) {
            (Value::Int(a), Value::Int(b)) => done_ok(r, Value::Int(min_i64(a, b))),
            _ => done_err(r, "min_i expects (int,int)"@),
        },
        NativeId::MaxI => match (args[0], args[1]) {
            (Value::Int(a), Value::Int(b)) => done_ok(r, Value::Int(max_i64(a, b))),
            _ => done_err(r, "max_i expects (int,int)"@),
        },
        NativeId::MinD => match (args[0], args[1]) {
            (Value::Double(a), Value::Double(b)) => done_ok(r, Value::Double(min_bits(a, b))),
            _ => done_err(r, "min_d expects (double,double)"@),
        },
        NativeId::MaxD => match (args[0], args[1]) {
            (Value::Double(a), Value::Double(b)) => done_ok(r, Value::Double(max_bits(a, b))),
            _ => done_err(r, "max_d expects (double,double)"@),
        },
        NativeId::AbsI => match args[0] {
            Value::Int(n) => done_ok(r, Value::Int(abs_i64(n))),
            _ => done_err(r, "abs_i expects (int)"@),
        },
        NativeId::AbsD => match args[0] {
            Value::Double(b) => done_ok(r, Value::Double(abs_bits(b))),
            _ => done_err(r, "abs_d expects (double)"@),
        },
        NativeId::ClampI => match (args[0], args[1], args[2]) {
            (Value::Int(v), Value::Int(lo), Value::Int(hi)) => if lo <= hi {
                done_ok(r, Value::Int(clamp_i64(v, lo, hi)))
            } else {
                done_err(r, "clamp_i expects min <= max"@)
            },
            _ => done_err(r, "clamp_i expects (int,int,int)"@),
        },
        NativeId::ClampD => match (args[0], args[1], args[2]) {
            (Value::Double(v), Value::Double(lo), Value::Double(hi)) => if valid_clamp_bounds(
                lo,
                hi,
            ) {
                done_ok(r, Value::Double(clamp_bits(v, lo, hi)))
            } else {
                done_err(r, "clamp_d expects min <= max"@)
            },
            _ => done_err(r, "clamp_d expects (double,double,double)"@),
        },
        NativeId::Pi => done_ok(r, Value::Double(PI_BITS)),
        NativeId::Factorial => match args[0] {
            Value::Int(n) => if n < 0 {
                done_err(r, "factorial expects non-negative int"@)
            } else if spec_factorial(n as int) > i64::MAX {
                done_err(r, "factorial overflow"@)
            } else {
                done_ok(r, Value::Int(spec_factorial(n as int) as i64))
            },
            _ => done_err(r, "factorial expects (int)"@),
        },
        NativeId::Sqrt => match args[0] {
            Value::Double(b) => if is_neg_bits(b) {
                done_err(r, "sqrt expects non-negative double"@)
            } else {
                r == NativeOutcome::Host(HostOp::Math1 { f: MathFn::Sqrt, a: b })
            },
            _ => done_err(r, "sqrt expects (double)"@),
        },
        NativeId::Sin => math1_post(args, r, MathFn::Sin, "sin expects (double)"@),
        NativeId::Cos => math1_post(args, r, MathFn::Cos, "cos expects (double)"@),
        NativeId::Tan => math1_post(args, r, MathFn::Tan, "tan expects (double)"@),
        NativeId::Asin => math1_post(args, r, MathFn::Asin, "asin expects (double)"@),
        NativeId::Acos => math1_post(args, r, MathFn::Acos, "acos expects (double)"@),
        NativeId::Atan => math1_post(args, r, MathFn::Atan, "atan expects (double)"@),
        NativeId::Atan2 => match (args[0], args[1]) {
            (Value::Double(y), Value::Double(x)) => r == NativeOutcome::Host(
                HostOp::Atan2 { y, x },
            ),
            _ => done_err(r, "atan2 expects (double,double)"@),
        },
    }
}

/// The outcome owed by a unary floating-point native without a domain check.
pub open spec fn math1_post(args: Seq<Value>, r: NativeOutcome, f: MathFn, msg: Seq<char>) -> bool {
    match args[0] {
        Value::Double(b) => r == NativeOutcome::Host(HostOp::Math1 { f, a: b }),
        _ => done_err(r, msg),
    }
}

/// Invokes the native function `id` on an argument list of its declared
/// arity.  Every argument's variant is validated against the declared
/// parameter type; a mismatch yields a descriptive failure, never a panic.
pub fn invoke(id: NativeId, args: &Vec<Value>) -> (r: NativeOutcome)
    requires
        args@.len() == native_arity(id),
    ensures
        invoke_post(id, args@, r),
{
    match id {
        NativeId::Print => match &args[0] {
            Value::Str(s) => NativeOutcome::Host(
                HostOp::Write { text: s.clone(), newline: false },
            ),
            _ => type_error("print expects (string)"),
        },
        NativeId::Println => match &args[0] {
            Value::Str(s) => NativeOutcome::Host(HostOp::Write { text: s.clone(), newline: true }),
            _ => type_error("println expects (string)"),
        },
        NativeId::Input => match &args[0] {
            Value::Str(s) => NativeOutcome::Host(HostOp::ReadLine { prompt: s.clone() }),
            _ => type_error("input expects (string)"),
        },
        NativeId::MinI => match (&args[0], &args[1]) {
            (Value::Int(a), Value::Int(b)) => {
                let m = if *a <= *b {
                    *a
                } else {
                    *b
                };
                NativeOutcome::Done(Ok(Value::Int(m)))
            },
            _ => type_error("min_i expects (int,int)"),
        },
        NativeId::MaxI => match (&args[0], &args[1]) {
            (Value::Int(a), Value::Int(b)) => {
                let m = if *a <= *b {
                    *b
                } else {
                    *a
                };
                NativeOutcome::Done(Ok(Value::Int(m)))
            },
            _ => type_error("max_i expects (int,int)"),
        },
        NativeId::MinD => match (&args[0], &args[1]) {
            (Value::Double(a), Value::Double(b)) => NativeOutcome::Done(
                Ok(Value::Double(min_bits_exec(*a, *b))),
            ),
            _ => type_error("min_d expects (double,double)"),
        },
        NativeId::MaxD => match (&args[0], &args[1]) {
            (Value::Double(a), Value::Double(b)) => NativeOutcome::Done(
                Ok(Value::Double(max_bits_exec(*a, *b))),
            ),
            _ => type_error("max_d expects (double,double)"),
        },
        NativeId::AbsI => match &args[0] {
            Value::Int(n) => {
                let v = if *n == i64::MIN {
                    *n
                } else if *n < 0 {
                    -*n
                } else {
                    *n
                };
                NativeOutcome::Done(Ok(Value::Int(v)))
            },
            _ => type_error("abs_i expects (int)"),
        },
        NativeId::AbsD => match &args[0] {
            Value::Double(b) => NativeOutcome::Done(Ok(Value::Double(abs_bits_exec(*b)))),
            _ => type_error("abs_d expects (double)"),
        },
        NativeId::ClampI => match (&args[0], &args[1], &args[2]) {
            (Value::Int(v), Value::Int(lo), Value::Int(hi)) => {
                if *lo <= *hi {
                    let c = if *v < *lo {
                        *lo
                    } else if *v > *hi {
                        *hi
                    } else {
                        *v
                    };
                    NativeOutcome::Done(Ok(Value::Int(c)))
                } else {
                    type_error("clamp_i expects min <= max")
                }
            },
            _ => type_error("clamp_i expects (int,int,int)"),
        },
        NativeId::ClampD => match (&args[0], &args[1], &args[2]) {
            (Value::Double(v), Value::Double(lo), Value::Double(hi)) => {
                if valid_clamp_bounds_exec(*lo, *hi) {
                    NativeOutcome::Done(Ok(Value::Double(clamp_bits_exec(*v, *lo, *hi))))
                } else {
                    type_error("clamp_d expects min <= max")
                }
            },
            _ => type_error("clamp_d expects (double,double,double)"),
        },
        NativeId::Pi => NativeOutcome::Done(Ok(Value::Double(PI_BITS))),
        NativeId::Factorial => match &args[0] {
            Value::Int(n) => {
                if *n < 0 {
                    type_error("factorial expects non-negative int")
                } else {
                    match factorial_checked(*n) {
                        Some(v) => NativeOutcome::Done(Ok(Value::Int(v))),
                        None => type_error("factorial overflow"),
                    }
                }
            },
            _ => type_error("factorial expects (int)"),
        },
        NativeId::Sqrt => match &args[0] {
            Value::Double(b) => {
                if is_neg_bits_exec(*b) {
                    type_error("sqrt expects non-negative double")
                } else {
                    NativeOutcome::Host(HostOp::Math1 { f: MathFn::Sqrt, a: *b })
                }
            },
            _ => type_error("sqrt expects (double)"),
        },
        NativeId::Sin => math1_invoke(args, MathFn::Sin, "sin expects (double)"),
        NativeId::Cos => math1_invoke(args, MathFn::Cos, "cos expects (double)"),
        NativeId::Tan => math1_invoke(args, MathFn::Tan, "tan expects (double)"),
        NativeId::Asin => math1_invoke(args, MathFn::Asin, "asin expects (double)"),
        NativeId::Acos => math1_invoke(args, MathFn::Acos, "acos expects (double)"),
        NativeId::Atan => math1_invoke(args, MathFn::Atan, "atan expects (double)"),
        NativeId::Atan2 => match (&args[0], &args[1]) {
            (Value::Double(y), Value::Double(x)) => NativeOutcome::Host(
                HostOp::Atan2 { y: *y, x: *x },
            ),
            _ => type_error("atan2 expects (double,double)"),
        },
    }
}

/// A finished failure carrying `msg`.
fn type_error(msg: &str) -> (r: NativeOutcome)
    ensures
        done_err(r, msg@),
{
    NativeOutcome::Done(Err(String::from_str(msg)))
}

/// One unary floating-point native: validate the variant, hand out the work.
fn math1_invoke(args: &Vec<Value>, f: MathFn, msg: &str) -> (r: NativeOutcome)
    requires
        args@.len() >= 1,
    ensures
        math1_post(args@, r, f, msg@),
{
    match &args[0] {
        Value::Double(b) => NativeOutcome::Host(HostOp::Math1 { f, a: *b }),
        _ => type_error(msg),
    }
}

/// The reply is of the kind the operation calls for.
pub open spec fn reply_matches(op: HostOp, reply: HostReply) -> bool {
    match op {
        HostOp::Write { .. } => reply is Unit,
        HostOp::ReadLine { .. } => reply is Line,
        HostOp::Math1 { .. } => reply is Bits,
        HostOp::Atan2 { .. } => reply is Bits,
    }
}

/// The value or failure owed once the embedding has answered `op` with
/// `reply`: output yields the void value; a line read yields the line with
/// trailing line terminators stripped, or a failure naming the cause; a
/// floating-point evaluation yields the returned pattern as a double.
pub open spec fn complete_post(op: HostOp, reply: HostReply, r: Result<Value, String>) -> bool {
    match op {
        HostOp::Write { .. } => r == Result::<Value, String>::Ok(Value::Void),
        HostOp::ReadLine { .. } => match reply {
            HostReply::Line(Ok(l)) => r matches Ok(Value::Str(t)) && t@ == strip_line_breaks(l@),
            HostReply::Line(Err(e)) => r matches Err(m) && m@ == "input error: "@ + e@,
            _ => true,
        },
        HostOp::Math1 { .. } => match reply {
            HostReply::Bits(b) => r == Result::<Value, String>::Ok(Value::Double(b)),
            _ => true,
        },
        HostOp::Atan2 { .. } => match reply {
            HostReply::Bits(b) => r == Result::<Value, String>::Ok(Value::Double(b)),
            _ => true,
        },
    }
}

/// Turns the embedding's answer to `op` into the native call's result.
pub fn complete_host(op: &HostOp, reply: HostReply) -> (r: Result<Value, String>)
    requires
        reply_matches(*op, reply),
    ensures
        complete_post(*op, reply, r),
{
    match op {
        HostOp::Write { .. } => Ok(Value::Void),
        HostOp::ReadLine { .. } => match reply {
            HostReply::Line(Ok(l)) => Ok(Value::Str(strip_trailing_line_breaks(l.as_str()))),
            HostReply::Line(Err(e)) => {
                let mut m = String::from_str("input error: ");
                m.append(e.as_str());
                Err(m)
            },
            _ => Ok(Value::Void),
        },
        HostOp::Math1 { .. } => match reply {
            HostReply::Bits(b) => Ok(Value::Double(b)),
            _ => Ok(Value::Void),
        },
        HostOp::Atan2 { .. } => match reply {
            HostReply::Bits(b) => Ok(Value::Double(b)),
            _ => Ok(Value::Void),
        },
    }
}

/// The arguments' variants all match the declared parameter types of `id`.
pub open spec fn args_well_typed(id: NativeId, args: Seq<Value>) -> bool {
    forall|k: int|
        0 <= k < native_params(id).len() ==> (#[trigger] args[k]).semantic_type() == Some(
            native_params(id)[k],
        )
}

/// `msg` is a documented domain failure of `id`: a mathematically invalid
/// input or an overflow, never a variant mismatch.
pub open spec fn domain_failure(id: NativeId, msg: Seq<char>) -> bool {
    match id {
        NativeId::Factorial => msg == "factorial expects non-negative int"@ || msg
            == "factorial overflow"@,
        NativeId::ClampI => msg == "clamp_i expects min <= max"@,
        NativeId::ClampD => msg == "clamp_d expects min <= max"@,
        NativeId::Sqrt => msg == "sqrt expects non-negative double"@,
        _ => false,
    }
}

/// Law: every native implementation is total over well-typed inputs.  Given
/// arguments whose variants match the declared parameter types, an
/// invocation finishes with a value, requests a host operation, or fails
/// for a documented domain reason -- it never reports a variant mismatch
/// and never traps.
pub proof fn lemma_well_typed_invocation(id: NativeId, args: Seq<Value>, r: NativeOutcome)
    requires
        args.len() == native_arity(id),
        args_well_typed(id, args),
        invoke_post(id, args, r),
    ensures
        r matches NativeOutcome::Done(Ok(_)) || r matches NativeOutcome::Host(_) || (r matches
        NativeOutcome::Done(Err(m)) && domain_failure(id, m@)),
{
    if native_arity(id) >= 1 {
        assert(args[0].semantic_type() == Some(native_params(id)[0]));
    }
    if native_arity(id) >= 2 {
        assert(args[1].semantic_type() == Some(native_params(id)[1]));
    }
    if native_arity(id) >= 3 {
        assert(args[2].semantic_type() == Some(native_params(id)[2]));
    }
}

} // verus!
