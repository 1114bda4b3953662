use vstd::prelude::*;
use vstd::string::StrSliceExecFns;
use vstd::string::StringExecFns;

use crate::double_bits::abs_bits;
use crate::double_bits::abs_bits_exec;
use crate::natives::abs_i64;
use crate::text::contains_seq;
use crate::text::str_contains;
use crate::text::str_eq;
use crate::values::Value;

verus! {

/// The largest string length a method may report as an `Int`.
pub const MAX_INT_LEN: u64 = 0x7FFF_FFFF_FFFF_FFFF;

/// `r` is an invalid-call failure whose message reads `msg`.
pub open spec fn some_err(r: Option<Result<Value, String>>, msg: Seq<char>) -> bool {
    r matches Some(Result::Err(s)) && s@ == msg
}

/// `r` is a successful call producing exactly `v`.
pub open spec fn some_ok(r: Option<Result<Value, String>>, v: Value) -> bool {
    r == Some(Result::<Value, String>::Ok(v))
}

/// What dispatching `method` on `receiver` with `args` must produce.
/// `None` means the receiver's variant has no such method, so the caller
/// may try other resolution; a failure means the method exists but the
/// call is invalid; each variant's method table is independent.
pub open spec fn dispatch_post(
    receiver: Value,
    method: Seq<char>,
    args: Seq<Value>,
    r: Option<Result<Value, String>>,
) -> bool {
    match receiver {
        Value::Str(s) => if method == "len"@ {
            if args.len() != 0 {
                some_err(r, "len expects 0 arguments"@)
            } else if s@.len() > MAX_INT_LEN {
                some_err(r, "len overflows int"@)
            } else {
                some_ok(r, Value::Int(s@.len() as i64))
            }
        } else if method == "contains"@ {
            if args.len() != 1 {
                some_err(r, "contains expects 1 argument"@)
            } else {
                match args[0] {
                    Value::Str(n) => some_ok(r, Value::Bool(contains_seq(s@, n@))),
                    _ => some_err(r, "contains expects (string)"@),
                }
            }
        } else {
            r is None
        },
        Value::Int(n) => if method == "abs"@ {
            if args.len() != 0 {
                some_err(r, "abs expects 0 arguments"@)
            } else {
                some_ok(r, Value::Int(abs_i64(n)))
            }
        } else {
            r is None
        },
        Value::Double(b) => if method == "abs"@ {
            if args.len() != 0 {
                some_err(r, "abs expects 0 arguments"@)
            } else {
                some_ok(r, Value::Double(abs_bits(b)))
            }
        } else {
            r is None
        },
        Value::Bool(x) => if method == "to_int"@ {
            if args.len() != 0 {
                some_err(r, "to_int expects 0 arguments"@)
            } else {
                some_ok(r, Value::Int(if x { 1i64 } else { 0i64 }))
            }
        } else {
            r is None
        },
        _ => r is None,
    }
}

/// An invalid-call failure carrying `msg`.
fn call_error(msg: &str) -> (r: Option<Result<Value, String>>)
    ensures
        some_err(r, msg@),
{
    Some(Err(String::from_str(msg)))
}

/// Resolves an instance-style method call on a primitive value,
/// independently of any module import.  `None` signals that the receiver's
/// variant has no method of this name; a returned failure signals a call
/// with the wrong argument count or an argument of the wrong variant.
pub fn dispatch_method(receiver: &Value, method: &str, args: &Vec<Value>) -> (r: Option<
    Result<Value, String>,
>)
    ensures
        dispatch_post(*receiver, method@, args@, r),
{
    match receiver {
        Value::Str(s) => {
            if str_eq(method, "len") {
                if args.len() != 0 {
                    call_error("len expects 0 arguments")
                } else {
                    let n = s.as_str().unicode_len();
                    if n as u64 > MAX_INT_LEN {
                        call_error("len overflows int")
                    } else {
                        Some(Ok(Value::Int(n as i64)))
                    }
                }
            } else if str_eq(method, "contains") {
                if args.len() != 1 {
                    call_error("contains expects 1 argument")
                } else {
                    match &args[0] {
                        Value::Str(needle) => Some(
                            Ok(Value::Bool(str_contains(s.as_str(), needle.as_str()))),
                        ),
                        _ => call_error("contains expects (string)"),
                    }
                }
            } else {
                None
            }
        },
        Value::Int(n) => {
            if str_eq(method, "abs") {
                if args.len() != 0 {
                    call_error("abs expects 0 arguments")
                } else {
                    let v = if *n == i64::MIN {
                        *n
                    } else if *n < 0 {
                        -*n
                    } else {
                        *n
                    };
                    Some(Ok(Value::Int(v)))
                }
            } else {
                None
            }
        },
        Value::Double(b) => {
            if str_eq(method, "abs") {
                if args.len() != 0 {
                    call_error("abs expects 0 arguments")
                } else {
                    Some(Ok(Value::Double(abs_bits_exec(*b))))
                }
            } else {
                None
            }
        },
        Value::Bool(x) => {
            if str_eq(method, "to_int") {
                if args.len() != 0 {
                    call_error("to_int expects 0 arguments")
                } else {
                    Some(Ok(Value::Int(if *x { 1 } else { 0 })))
                }
            } else {
                None
            }
        },
        _ => None,
    }
}

} // verus!
