use frut_natives::natives::complete_host;
use frut_natives::natives::invoke;
use frut_natives::natives::HostOp;
use frut_natives::natives::HostReply;
use frut_natives::natives::NativeOutcome;
use frut_natives::NativeId;
use frut_natives::Value;

fn s(text: &str) -> Value {
    Value::Str(text.to_string())
}

#[test]
fn print_carries_its_text_without_a_newline() {
    match invoke(NativeId::Print, &vec![s("hello")]) {
        NativeOutcome::Host(op) => {
            match &op {
                HostOp::Write { text, newline } => {
                    assert_eq!(text.as_str(), "hello");
                    assert!(!*newline);
                }
                other => panic!("expected a write request, got {:?}", other),
            }
            assert!(matches!(complete_host(&op, HostReply::Unit), Ok(Value::Void)));
        }
        other => panic!("expected a host request, got {:?}", other),
    }
}

#[test]
fn println_carries_its_text_with_a_newline() {
    match invoke(NativeId::Println, &vec![s("hi")]) {
        NativeOutcome::Host(HostOp::Write { text, newline }) => {
            assert_eq!(text, "hi");
            assert!(newline);
        }
        other => panic!("expected a write request, got {:?}", other),
    }
}

#[test]
fn input_writes_the_prompt_before_reading() {
    match invoke(NativeId::Input, &vec![s("Name: ")]) {
        NativeOutcome::Host(HostOp::ReadLine { prompt }) => assert_eq!(prompt, "Name: "),
        other => panic!("expected a read request, got {:?}", other),
    }
}

#[test]
fn input_strips_trailing_line_terminators() {
    let op = HostOp::ReadLine {
        prompt: "? ".to_string(),
    };
    match complete_host(&op, HostReply::Line(Ok("Ada\n".to_string()))) {
        Ok(Value::Str(t)) => assert_eq!(t, "Ada"),
        other => panic!("expected a string, got {:?}", other),
    }
    match complete_host(&op, HostReply::Line(Ok("Ada\r\n".to_string()))) {
        Ok(Value::Str(t)) => assert_eq!(t, "Ada"),
        other => panic!("expected a string, got {:?}", other),
    }
    match complete_host(&op, HostReply::Line(Ok("spaced  \n".to_string()))) {
        Ok(Value::Str(t)) => assert_eq!(t, "spaced  "),
        other => panic!("expected a string, got {:?}", other),
    }
    match complete_host(&op, HostReply::Line(Ok("".to_string()))) {
        Ok(Value::Str(t)) => assert_eq!(t, ""),
        other => panic!("expected a string, got {:?}", other),
    }
}

#[test]
fn input_surfaces_read_failures_as_values() {
    let op = HostOp::ReadLine {
        prompt: "? ".to_string(),
    };
    match complete_host(&op, HostReply::Line(Err("stream closed".to_string()))) {
        Err(m) => assert_eq!(m, "input error: stream closed"),
        other => panic!("expected a failure, got {:?}", other),
    }
}

#[test]
fn io_natives_reject_wrong_variants() {
    match invoke(NativeId::Print, &vec![Value::Int(3)]) {
        NativeOutcome::Done(Err(m)) => assert_eq!(m, "print expects (string)"),
        other => panic!("expected a failure, got {:?}", other),
    }
    match invoke(NativeId::Input, &vec![Value::Bool(true)]) {
        NativeOutcome::Done(Err(m)) => assert_eq!(m, "input expects (string)"),
        other => panic!("expected a failure, got {:?}", other),
    }
}
