use wasm_host::engine::{finish_run, RunEnd};
use wasm_host::error_info::{Diagnostic, ErrorInfo, NativeReport};
use wasm_host::exception::{
    report_pending_exception, ExceptionSlot, ExceptionValue, HostFailure, Pending,
};

fn report_of(message: &[u8], filename: Option<&[u8]>, lineno: u32, column: u32) -> NativeReport {
    NativeReport {
        filename: filename.map(|f| f.to_vec()),
        lineno,
        column,
        message: message.to_vec(),
    }
}

fn slot_with(value: ExceptionValue) -> ExceptionSlot {
    let mut slot = ExceptionSlot::empty();
    slot.raise(Pending::Thrown(value));
    slot
}

#[test]
fn structured_error_is_reported_once() {
    let rep = report_of(b"boom\0", Some(b"main.js\0"), 3, 7);
    let mut slot = slot_with(ExceptionValue::Object(Some(rep)));
    assert!(slot.is_pending());
    match report_pending_exception(&mut slot) {
        Ok(Some(Diagnostic::Located(info))) => {
            assert_eq!(info.message, "boom");
            assert_eq!(info.filename, "main.js");
            assert_eq!(info.lineno, 3);
            assert_eq!(info.column, 7);
        }
        _ => panic!("expected a located diagnostic"),
    }
    assert!(!slot.is_pending());
    assert!(matches!(report_pending_exception(&mut slot), Ok(None)));
}

#[test]
fn thrown_error_line_names_message_and_line() {
    let rep = report_of(b"Error: boom\0", Some(b"noname\0"), 3, 1);
    let mut slot = slot_with(ExceptionValue::Object(Some(rep)));
    let d = report_pending_exception(&mut slot).unwrap().unwrap();
    let line = d.render();
    assert_eq!(line, "Error at noname:3:1 Error: boom");
    assert!(line.contains("boom"));
    assert!(line.contains(":3:"));
}

#[test]
fn missing_filename_reads_none() {
    let rep = report_of(b"bad", None, 12, 0);
    let info = ErrorInfo::from_native_error(Some(&rep)).unwrap();
    assert_eq!(info.filename, "none");
    assert_eq!(info.message, "bad");
    assert_eq!(info.lineno, 12);
    assert_eq!(info.column, 0);
}

#[test]
fn fields_stop_at_first_nul() {
    let rep = report_of(b"ab\0cd\0", Some(b"x.js\0junk"), 1, 2);
    let info = ErrorInfo::from_native_error(Some(&rep)).unwrap();
    assert_eq!(info.message, "ab");
    assert_eq!(info.filename, "x.js");
}

#[test]
fn invalid_utf8_message_is_decoded_leniently() {
    let rep = report_of(b"a\xffb\0", Some(b"f.js\0"), 1, 1);
    let info = ErrorInfo::from_native_error(Some(&rep)).unwrap();
    assert_eq!(info.message, "a\u{FFFD}b");
}

#[test]
fn no_native_report_gives_none() {
    assert!(ErrorInfo::from_native_error(None).is_none());
}

#[test]
fn object_without_report_uses_fallback() {
    let mut slot = slot_with(ExceptionValue::Object(None));
    let d = report_pending_exception(&mut slot).unwrap().unwrap();
    match &d {
        Diagnostic::Located(info) => {
            assert_eq!(info.message, "uncaught exception: unknown (can't convert to string)");
            assert_eq!(info.filename, "");
            assert_eq!(info.lineno, 0);
            assert_eq!(info.column, 0);
        }
        _ => panic!("expected a located diagnostic"),
    }
    assert_eq!(
        d.render(),
        "Error at :0:0 uncaught exception: unknown (can't convert to string)"
    );
}

#[test]
fn thrown_string_is_message_only() {
    let mut slot = slot_with(ExceptionValue::Text(b"oops".to_vec()));
    let d = report_pending_exception(&mut slot).unwrap().unwrap();
    match &d {
        Diagnostic::Message(m) => assert_eq!(m, "oops"),
        _ => panic!("expected a message-only diagnostic"),
    }
    assert_eq!(d.render(), "Error: oops");
    assert!(!slot.is_pending());
}

#[test]
fn thrown_primitive_is_fatal() {
    let mut slot = slot_with(ExceptionValue::Other);
    assert_eq!(
        report_pending_exception(&mut slot).err(),
        Some(HostFailure::UnsupportedException)
    );
    assert!(!slot.is_pending());
}

#[test]
fn unreadable_exception_is_fatal() {
    let mut slot = ExceptionSlot::empty();
    slot.raise(Pending::Unreadable);
    assert_eq!(
        report_pending_exception(&mut slot).err(),
        Some(HostFailure::PendingUnreadable)
    );
    assert!(!slot.is_pending());
}

#[test]
fn nothing_pending_reports_nothing() {
    let mut slot = ExceptionSlot::empty();
    assert!(matches!(report_pending_exception(&mut slot), Ok(None)));
}

#[test]
fn large_line_and_column_render_in_decimal() {
    let info = ErrorInfo {
        message: "m".to_string(),
        filename: "f".to_string(),
        lineno: 4294967295,
        column: 10,
    };
    assert_eq!(Diagnostic::Located(info).render(), "Error at f:4294967295:10 m");
}

#[test]
fn successful_run_completes() {
    let mut slot = ExceptionSlot::empty();
    assert!(matches!(finish_run(true, &mut slot), RunEnd::Completed));
}

#[test]
fn failed_run_reports_thrown_error() {
    let rep = report_of(b"Error: boom\0", Some(b"noname\0"), 3, 1);
    let mut slot = slot_with(ExceptionValue::Object(Some(rep)));
    match finish_run(false, &mut slot) {
        RunEnd::Reported(d) => assert_eq!(d.render(), "Error at noname:3:1 Error: boom"),
        _ => panic!("expected a reported diagnostic"),
    }
    assert!(!slot.is_pending());
}

#[test]
fn failed_run_without_exception_completes() {
    let mut slot = ExceptionSlot::empty();
    assert!(matches!(finish_run(false, &mut slot), RunEnd::Completed));
}

#[test]
fn failed_run_with_primitive_aborts() {
    let mut slot = slot_with(ExceptionValue::Other);
    assert!(matches!(
        finish_run(false, &mut slot),
        RunEnd::Aborted(HostFailure::UnsupportedException)
    ));
}
