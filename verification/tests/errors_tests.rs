use cmd_harness::errors::{Diagnostic, ErrorSource, FrameworkError, IoError, LogicError};

#[test]
fn domain_wrap_category_is_logic_error() {
    let d = LogicError("rule violated".to_owned());
    let e = FrameworkError::from(d);
    assert_eq!(e.category(), "Logic error");
}

#[test]
fn domain_wrap_keeps_cause() {
    let d = LogicError("rule violated".to_owned());
    let e = FrameworkError::from(d);
    match e.source() {
        ErrorSource::Logic(inner) => assert_eq!(inner.0, "rule violated"),
        ErrorSource::Io(_) => panic!("domain failure must wrap a domain cause"),
    }
}

#[test]
fn input_tag_category_is_input_error() {
    let e = FrameworkError::Input(IoError::new("stream closed".to_owned()));
    assert_eq!(e.category(), "Input error");
}

#[test]
fn output_tag_category_is_output_error() {
    let e = FrameworkError::Output(IoError::new("pipe broken".to_owned()));
    assert_eq!(e.category(), "Output error");
}

#[test]
fn io_tags_keep_cause() {
    let input_side = FrameworkError::Input(IoError::new("stream closed".to_owned()));
    match input_side.source() {
        ErrorSource::Io(inner) => assert_eq!(inner.detail, "stream closed"),
        ErrorSource::Logic(_) => panic!("platform failure must wrap a platform cause"),
    }
    let output_side = FrameworkError::Output(IoError::new("pipe broken".to_owned()));
    match output_side.cause() {
        ErrorSource::Io(inner) => assert_eq!(inner.detail, "pipe broken"),
        ErrorSource::Logic(_) => panic!("platform failure must wrap a platform cause"),
    }
}

#[test]
fn diagnostic_messages() {
    assert_eq!(IoError::new("disk full".to_owned()).message(), "disk full");
    assert_eq!(LogicError("bad state".to_owned()).message(), "bad state");
    let e = FrameworkError::Logic(LogicError("bad state".to_owned()));
    assert_eq!(e.message(), "Logic error");
}
