//! What an uncaught script error becomes on the host side, and the line that
//! reports it.

use vstd::prelude::*;
use crate::text::{decimal, decimal_string, decode_lossy, is_c_string_of, c_string_prefix, lossy_decode};

verus! {

/// The raw fields of the engine's error report for a thrown error object, as
/// bytes copied out of the engine (each may run on past its NUL terminator).
pub struct NativeReport {
    /// The source file's name; `None` when the engine recorded none.
    pub filename: Option<Vec<u8>>,
    pub lineno: libc::c_uint,
    pub column: libc::c_uint,
    pub message: Vec<u8>,
}

/// A struct encapsulating information about a runtime script error.
pub struct ErrorInfo {
    /// The error message.
    pub message: String,
    /// The file name.
    pub filename: String,
    /// The line number.
    pub lineno: libc::c_uint,
    /// The column number.
    pub column: libc::c_uint,
}

/// The mathematical value of an `ErrorInfo`.
pub struct ErrorInfoView {
    pub message: Seq<char>,
    pub filename: Seq<char>,
    pub lineno: u32,
    pub column: u32,
}

impl View for ErrorInfo {
    type V = ErrorInfoView;

    open spec fn view(&self) -> ErrorInfoView {
        ErrorInfoView {
            message: self.message@,
            filename: self.filename@,
            lineno: self.lineno,
            column: self.column,
        }
    }
}

/// The text of a NUL-terminated field: what precedes the first NUL, decoded
/// leniently.
pub open spec fn c_field_text(b: Seq<u8>) -> Seq<char> {
    lossy_decode(choose|p: Seq<u8>| is_c_string_of(b, p))
}

/// The file name reported when the engine recorded none.
pub open spec fn no_filename() -> Seq<char> {
    seq!['n', 'o', 'n', 'e']
}

/// The error information that a native report carries.
pub open spec fn info_of_report(r: NativeReport) -> ErrorInfoView {
    ErrorInfoView {
        message: c_field_text(r.message@),
        filename: match r.filename {
            Some(f) => c_field_text(f@),
            None => no_filename(),
        },
        lineno: r.lineno,
        column: r.column,
    }
}

/// The message used for an error object the engine could not describe.
pub open spec fn unknown_exception_message() -> Seq<char> {
    "uncaught exception: unknown (can't convert to string)"@
}

/// What is reported for an error object the engine could not describe: the
/// fallback message, an empty file name, line and column zero.
pub open spec fn fallback_info() -> ErrorInfoView {
    ErrorInfoView { message: unknown_exception_message(), filename: seq![], lineno: 0, column: 0 }
}

/// A byte string has only one C-string reading.
pub proof fn lemma_c_string_unique(b: Seq<u8>, p: Seq<u8>, q: Seq<u8>)
    requires
        is_c_string_of(b, p),
        is_c_string_of(b, q),
    ensures
        p == q,
{
    if p.len() < q.len() {
        assert(q[p.len() as int] == b[p.len() as int]);
    } else if q.len() < p.len() {
        assert(p[q.len() as int] == b[q.len() as int]);
    }
    assert(p =~= q);
}

/// A field with no NUL byte in it is read whole.
pub proof fn lemma_c_field_text_whole(b: Seq<u8>)
    requires
        forall|i: int| 0 <= i < b.len() ==> b[i] != 0,
    ensures
        c_field_text(b) == lossy_decode(b),
{
    assert(b.take(b.len() as int) =~= b);
    assert(is_c_string_of(b, b));
    let c = choose|p: Seq<u8>| is_c_string_of(b, p);
    lemma_c_string_unique(b, b, c);
}

fn c_field(b: &Vec<u8>) -> (r: String)
    ensures
        r@ == c_field_text(b@),
{
    let p = c_string_prefix(b.as_slice());
    proof {
        let c = choose|p: Seq<u8>| is_c_string_of(b@, p);
        lemma_c_string_unique(b@, p@, c);
    }
    decode_lossy(p.as_slice())
}

impl ErrorInfo {
    /// Reads the error information out of the engine's report for an error
    /// object; `None` when the engine produced no report.
    pub fn from_native_error(report: Option<&NativeReport>) -> (r: Option<ErrorInfo>)
        ensures
            match report {
                None => r is None,
                Some(rep) => r matches Some(info) && info@ == info_of_report(*rep),
            },
    {
        match report {
            None => None,
            Some(rep) => {
                let filename = match &rep.filename {
                    Some(f) => c_field(f),
                    None => {
                        proof {
                            reveal_strlit("none");
                        }
                        let s = String::from_str("none");
                        assert(s@ =~= no_filename());
                        s
                    },
                };
                let message = c_field(&rep.message);
                Some(ErrorInfo { filename, message, lineno: rep.lineno, column: rep.column })
            },
        }
    }

    /// The information reported for an error object the engine could not describe.
    pub fn unknown() -> (r: ErrorInfo)
        ensures
            r@ == fallback_info(),
    {
        let message = String::from_str("uncaught exception: unknown (can't convert to string)");
        let filename = String::new();
        assert(filename@ =~= seq![]);
        ErrorInfo { message, filename, lineno: 0, column: 0 }
    }
}

/// A diagnostic for an uncaught script failure.
pub enum Diagnostic {
    /// A structured error object, with its place in the source.
    Located(ErrorInfo),
    /// A thrown string: a message with no location.
    Message(String),
}

/// The mathematical value of a `Diagnostic`.
pub enum DiagnosticView {
    Located(ErrorInfoView),
    Message(Seq<char>),
}

impl View for Diagnostic {
    type V = DiagnosticView;

    open spec fn view(&self) -> DiagnosticView {
        match self {
            Diagnostic::Located(info) => DiagnosticView::Located(info@),
            Diagnostic::Message(m) => DiagnosticView::Message(m@),
        }
    }
}

/// The diagnostic line: `Error at <filename>:<line>:<column> <message>` for a
/// located error, `Error: <message>` for a message alone.
pub open spec fn diagnostic_line(d: DiagnosticView) -> Seq<char> {
    match d {
        DiagnosticView::Located(e) => "Error at "@ + e.filename + ":"@ + decimal(e.lineno as nat)
            + ":"@ + decimal(e.column as nat) + " "@ + e.message,
        DiagnosticView::Message(m) => "Error: "@ + m,
    }
}

impl Diagnostic {
    /// The line written to the diagnostic stream for this failure.
    pub fn render(&self) -> (r: String)
        ensures
            r@ == diagnostic_line(self@),
    {
        match self {
            Diagnostic::Located(e) => {
                let mut s = String::from_str("Error at ");
                s.append(e.filename.as_str());
                s.append(":");
                let line = decimal_string(e.lineno);
                s.append(line.as_str());
                s.append(":");
                let column = decimal_string(e.column);
                s.append(column.as_str());
                s.append(" ");
                s.append(e.message.as_str());
                s
            },
            Diagnostic::Message(m) => {
                let mut s = String::from_str("Error: ");
                s.append(m.as_str());
                s
            },
        }
    }
}

} // verus!
