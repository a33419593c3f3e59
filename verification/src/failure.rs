//! Terminal failures of a subscription and the error reports they carry.
use vstd::prelude::*;

verus! {

/// The JSON-RPC code for an internal error.
pub const INTERNAL_ERROR_CODE: i32 = -32603;

/// What a JSON-RPC error object holds: a code, a message and optional data
/// (the data as raw JSON text).
#[derive(Debug, PartialEq, Eq)]
pub struct ErrorReport {
    pub code: i32,
    pub message: String,
    pub data: Option<String>,
}

/// Mathematical model of an [`ErrorReport`].
pub struct ErrorReportView {
    pub code: int,
    pub message: Seq<char>,
    pub data: Option<Seq<char>>,
}

impl View for ErrorReport {
    type V = ErrorReportView;

    open spec fn view(&self) -> ErrorReportView {
        ErrorReportView {
            code: self.code as int,
            message: self.message@,
            data: match self.data {
                Some(d) => Some(d@),
                None => None,
            },
        }
    }
}

impl Clone for ErrorReport {
    fn clone(&self) -> (copy: Self)
        ensures
            copy == *self,
    {
        ErrorReport {
            code: self.code,
            message: self.message.clone(),
            data: match &self.data {
                Some(d) => Some(d.clone()),
                None => None,
            },
        }
    }
}

/// The report of an internal error with the given message.
pub open spec fn internal_report(message: Seq<char>) -> ErrorReportView {
    ErrorReportView { code: INTERNAL_ERROR_CODE as int, message, data: None }
}

/// Builds the error object of an internal error with
/// `jsonrpsee::types::ErrorObject::owned`, handing it
/// `jsonrpsee::types::error::INTERNAL_ERROR_CODE`, the message and no data, and
/// reads the object back field by field. The contract claims what the
/// constructor's source shows: the object keeps the code and the message it was
/// given, and holds no data.
#[verifier::external_body]
fn internal_error_report(message: String) -> (report: ErrorReport)
    ensures
        report@ == internal_report(message@),
{
    let object = jsonrpsee::types::ErrorObject::owned::<()>(
        jsonrpsee::types::error::INTERNAL_ERROR_CODE,
        message,
        None,
    );
    ErrorReport {
        code: object.code(),
        message: object.message().to_string(),
        data: object.data().map(|d| d.get().to_string()),
    }
}

/// The report of an internal error that carries `message`.
pub fn internal_error(message: String) -> (report: ErrorReport)
    ensures
        report@ == internal_report(message@),
{
    internal_error_report(message)
}

/// Which step of delivering one entry failed, with the failure's text.
#[derive(Debug, PartialEq, Eq)]
pub enum DeliveryFault {
    /// The entry could not be serialized; nothing of it was sent.
    Serialization(String),
    /// The transport did not take the serialized entry.
    Transport(String),
}

/// Mathematical model of a [`DeliveryFault`].
pub enum DeliveryFaultView {
    Serialization(Seq<char>),
    Transport(Seq<char>),
}

impl View for DeliveryFault {
    type V = DeliveryFaultView;

    open spec fn view(&self) -> DeliveryFaultView {
        match self {
            DeliveryFault::Serialization(text) => DeliveryFaultView::Serialization(text@),
            DeliveryFault::Transport(text) => DeliveryFaultView::Transport(text@),
        }
    }
}

/// Why a subscription ended other than by the producer's shutdown.
///
/// A refused handshake keeps a subscription from starting. Each of the other
/// four ends a running session; none is retried, and the client sees none of
/// them: the stream just ends.
#[derive(Debug, PartialEq, Eq)]
pub enum Failure {
    /// The transport did not complete the handshake.
    Handshake(String),
    /// Query mediation rejected the filter or could not resolve the block.
    Validation(ErrorReport),
    /// The storage query failed.
    Storage(ErrorReport),
    /// An entry could not be serialized.
    Serialization(ErrorReport),
    /// The transport did not take an entry.
    Transport(ErrorReport),
}

/// Mathematical model of a [`Failure`].
pub enum FailureView {
    Handshake(Seq<char>),
    Validation(ErrorReportView),
    Storage(ErrorReportView),
    Serialization(ErrorReportView),
    Transport(ErrorReportView),
}

impl View for Failure {
    type V = FailureView;

    open spec fn view(&self) -> FailureView {
        match self {
            Failure::Handshake(reason) => FailureView::Handshake(reason@),
            Failure::Validation(report) => FailureView::Validation(report@),
            Failure::Storage(report) => FailureView::Storage(report@),
            Failure::Serialization(report) => FailureView::Serialization(report@),
            Failure::Transport(report) => FailureView::Transport(report@),
        }
    }
}

impl Clone for Failure {
    fn clone(&self) -> (copy: Self)
        ensures
            copy == *self,
    {
        match self {
            Failure::Handshake(reason) => Failure::Handshake(reason.clone()),
            Failure::Validation(report) => Failure::Validation(report.clone()),
            Failure::Storage(report) => Failure::Storage(report.clone()),
            Failure::Serialization(report) => Failure::Serialization(report.clone()),
            Failure::Transport(report) => Failure::Transport(report.clone()),
        }
    }
}

/// The failure that a fault in delivery ends the session with: an internal
/// error that carries the fault's text.
pub open spec fn delivery_failure(fault: DeliveryFaultView) -> FailureView {
    match fault {
        DeliveryFaultView::Serialization(text) => FailureView::Serialization(
            internal_report(text),
        ),
        DeliveryFaultView::Transport(text) => FailureView::Transport(internal_report(text)),
    }
}

impl Failure {
    /// Maps a fault in delivery to the failure that ends the session.
    pub fn from_fault(fault: DeliveryFault) -> (failure: Failure)
        ensures
            failure@ == delivery_failure(fault@),
    {
        match fault {
            DeliveryFault::Serialization(text) => Failure::Serialization(internal_error(text)),
            DeliveryFault::Transport(text) => Failure::Transport(internal_error(text)),
        }
    }
}

} // verus!
