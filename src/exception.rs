//! The exception translator: drains the context's pending-exception slot and
//! turns what was thrown into a diagnostic, or into a fatal host failure.

use vstd::prelude::*;
use crate::error_info::{
    Diagnostic, DiagnosticView, ErrorInfo, ErrorInfoView, NativeReport, fallback_info,
    info_of_report, lemma_c_field_text_whole, no_filename,
};
use crate::text::{decode_lossy, lossy_decode};
use vstd::utf8::{decode_utf8, valid_utf8};

verus! {

/// A failure that the host cannot recover from by reporting it to the script.
#[derive(PartialEq, Eq, Structural, Clone, Copy, Debug)]
pub enum HostFailure {
    /// The engine signalled an exception but could not hand its value over.
    PendingUnreadable,
    /// A thrown value that is neither an object nor a string.
    UnsupportedException,
    /// The engine produced text that is not valid UTF-8.
    Encoding,
    /// A binary asset could not be read.
    Io(IoFailure),
}

/// Why reading a binary asset failed.
#[derive(PartialEq, Eq, Structural, Clone, Copy, Debug)]
pub enum IoFailure {
    NotFound,
    PermissionDenied,
    Truncated,
    Other,
}

/// The value of a pending exception, as the engine shows it to the host.
pub enum ExceptionValue {
    /// An object, with the engine's error report for it when there is one.
    Object(Option<NativeReport>),
    /// A string, encoded as UTF-8 by the engine.
    Text(Vec<u8>),
    /// Any other value: a number, a boolean, `null` or `undefined`.
    Other,
}

/// What the context's single pending-exception slot holds.
pub enum Pending {
    /// An exception is pending, but its value could not be fetched.
    Unreadable,
    /// An exception is pending with this value.
    Thrown(ExceptionValue),
}

/// The context's single-slot record of an in-flight uncaught failure.
pub struct ExceptionSlot {
    pub pending: Option<Pending>,
}

/// What reporting makes of a pending exception.
pub open spec fn outcome_of(p: Pending) -> Result<Option<DiagnosticView>, HostFailure> {
    match p {
        Pending::Unreadable => Err(HostFailure::PendingUnreadable),
        Pending::Thrown(ExceptionValue::Object(Some(rep))) => Ok(
            Some(DiagnosticView::Located(info_of_report(rep))),
        ),
        Pending::Thrown(ExceptionValue::Object(None)) => Ok(
            Some(DiagnosticView::Located(fallback_info())),
        ),
        Pending::Thrown(ExceptionValue::Text(s)) => Ok(Some(DiagnosticView::Message(lossy_decode(s@)))),
        Pending::Thrown(ExceptionValue::Other) => Err(HostFailure::UnsupportedException),
    }
}

/// What reporting makes of a slot: nothing when no exception is pending.
pub open spec fn report_outcome(s: ExceptionSlot) -> Result<Option<DiagnosticView>, HostFailure> {
    match s.pending {
        None => Ok(None),
        Some(p) => outcome_of(p),
    }
}

/// The view of a report's result.
pub open spec fn result_view(r: Result<Option<Diagnostic>, HostFailure>) -> Result<
    Option<DiagnosticView>,
    HostFailure,
> {
    match r {
        Ok(Some(d)) => Ok(Some(d@)),
        Ok(None) => Ok(None),
        Err(e) => Err(e),
    }
}

impl ExceptionSlot {
    /// A slot with nothing pending.
    pub fn empty() -> (r: ExceptionSlot)
        ensures
            r.pending is None,
    {
        ExceptionSlot { pending: None }
    }

    /// Records a failure as pending, as the engine does when a script throws.
    pub fn raise(&mut self, p: Pending)
        ensures
            final(self).pending == Some(p),
    {
        self.pending = Some(p);
    }

    /// Whether a failure is pending.
    pub fn is_pending(&self) -> (r: bool)
        ensures
            r == self.pending is Some,
    {
        self.pending.is_some()
    }
}

/// Reports the pending exception, if any, and clears the slot. A structured
/// error object gives a located diagnostic (a fallback one when the engine has
/// no report for it), a string a message alone; any other thrown value, or one
/// that cannot be fetched, is a fatal host failure.
pub fn report_pending_exception(slot: &mut ExceptionSlot) -> (r: Result<Option<Diagnostic>, HostFailure>)
    ensures
        result_view(r) == report_outcome(*old(slot)),
        final(slot).pending is None,
{
    let pending = slot.pending.take();
    match pending {
        None => Ok(None),
        Some(Pending::Unreadable) => Err(HostFailure::PendingUnreadable),
        Some(Pending::Thrown(ExceptionValue::Object(report))) => {
            let info = match ErrorInfo::from_native_error(report.as_ref()) {
                Some(info) => info,
                None => ErrorInfo::unknown(),
            };
            Ok(Some(Diagnostic::Located(info)))
        },
        Some(Pending::Thrown(ExceptionValue::Text(s))) => {
            Ok(Some(Diagnostic::Message(decode_lossy(s.as_slice()))))
        },
        Some(Pending::Thrown(ExceptionValue::Other)) => Err(HostFailure::UnsupportedException),
    }
}

} // verus!

verus! {

/// No NUL byte occurs in `b`.
pub open spec fn nul_free(b: Seq<u8>) -> bool {
    forall|i: int| 0 <= i < b.len() ==> b[i] != 0
}

/// A thrown error object whose report holds message `M`, file name `F`, line
/// `L` and column `C` is reported as exactly `{M, F, L, C}`; reporting clears
/// the slot, and a slot left clear reports nothing.
pub proof fn lemma_structured_error_reported_once(rep: NativeReport)
    requires
        rep.filename matches Some(f) ==> valid_utf8(f@) && nul_free(f@),
        valid_utf8(rep.message@),
        nul_free(rep.message@),
    ensures
        report_outcome(ExceptionSlot { pending: Some(Pending::Thrown(ExceptionValue::Object(Some(rep)))) })
            == Ok::<Option<DiagnosticView>, HostFailure>(Some(DiagnosticView::Located(ErrorInfoView {
                message: decode_utf8(rep.message@),
                filename: match rep.filename {
                    Some(f) => decode_utf8(f@),
                    None => no_filename(),
                },
                lineno: rep.lineno,
                column: rep.column,
            }))),
        report_outcome(ExceptionSlot { pending: None }) == Ok::<Option<DiagnosticView>, HostFailure>(None),
{
    lemma_c_field_text_whole(rep.message@);
    if let Some(f) = rep.filename {
        lemma_c_field_text_whole(f@);
    }
}

/// A thrown string is reported as a message alone, with the string's text and
/// no location.
pub proof fn lemma_thrown_string_reported(s: Vec<u8>)
    requires
        valid_utf8(s@),
    ensures
        report_outcome(ExceptionSlot { pending: Some(Pending::Thrown(ExceptionValue::Text(s))) })
            == Ok::<Option<DiagnosticView>, HostFailure>(Some(DiagnosticView::Message(decode_utf8(s@)))),
{
}

} // verus!
