//! The closed set of failures, each with its process exit code and a flag that
//! says whether endpoint resolution may try again after it.

use crate::text::{joined, string_views};
use vstd::prelude::*;
use vstd::string::StringExecFns;

verus! {

/// Why a control socket could not be used.
#[derive(Debug, Clone, Copy, PartialEq, Eq, Structural)]
pub enum ControlSocketErrorKind {
    /// The socket is not there (yet).
    NotFound,
    /// The socket is there and may not be opened.
    Permissions,
    /// The address could not be understood.
    Parse,
    /// Anything else.
    General,
}

/// What the transport client reported when a request could not be delivered.
#[derive(Debug, Clone, Copy, PartialEq, Eq, Structural)]
pub enum ClientErrorKind {
    /// The control socket refused the caller's credentials.
    SocketPermissions,
    /// The server answered with an API-level error.
    OpenApi,
    /// Any other delivery failure.
    Other,
}

/// A delivery failure of the transport client, as text.
#[derive(Debug, Clone, PartialEq, Eq)]
pub struct ClientError {
    pub kind: ClientErrorKind,
    /// The client error, rendered.
    pub message: String,
    /// The underlying cause, rendered; read for `ClientErrorKind::OpenApi`.
    pub cause: String,
}

/// The mathematical value of a `ClientError`.
pub ghost struct ClientErrorModel {
    pub kind: ClientErrorKind,
    pub message: Seq<char>,
    pub cause: Seq<char>,
}

impl View for ClientError {
    type V = ClientErrorModel;

    open spec fn view(&self) -> ClientErrorModel {
        ClientErrorModel { kind: self.kind, message: self.message@, cause: self.cause@ }
    }
}

/// Every failure the tool reports.
#[derive(Debug, Clone, PartialEq, Eq)]
#[allow(inconsistent_fields)]
pub enum UnitctlError {
    ControlSocketError { kind: ControlSocketErrorKind, message: String },
    CertificateError { message: String },
    EditorError { message: String },
    NoUnitInstancesError,
    MultipleUnitInstancesError { suggestion: String },
    NoSocketPathError,
    NoInputFileError,
    UiServerError { message: String },
    UnitClientError { source: ClientError },
    SerializationError { message: String },
    DeserializationError { message: String },
    /// An I/O failure; `source` is the operating system's error, rendered.
    IoError { source: String },
    PathNotFound { path: String },
    UnknownInputFileType { path: String },
    NoFilesImported,
    WaitTimeoutError,
}

/// The mathematical value of a `UnitctlError`: the same variants over
/// sequences of characters.
#[allow(inconsistent_fields)]
pub ghost enum ErrorModel {
    ControlSocketError { kind: ControlSocketErrorKind, message: Seq<char> },
    CertificateError { message: Seq<char> },
    EditorError { message: Seq<char> },
    NoUnitInstancesError,
    MultipleUnitInstancesError { suggestion: Seq<char> },
    NoSocketPathError,
    NoInputFileError,
    UiServerError { message: Seq<char> },
    UnitClientError { source: ClientErrorModel },
    SerializationError { message: Seq<char> },
    DeserializationError { message: Seq<char> },
    IoError { source: Seq<char> },
    PathNotFound { path: Seq<char> },
    UnknownInputFileType { path: Seq<char> },
    NoFilesImported,
    WaitTimeoutError,
}

impl View for UnitctlError {
    type V = ErrorModel;

    open spec fn view(&self) -> ErrorModel {
        match self {
            UnitctlError::ControlSocketError { kind, message } => ErrorModel::ControlSocketError {
                kind: *kind,
                message: message@,
            },
            UnitctlError::CertificateError { message } => ErrorModel::CertificateError {
                message: message@,
            },
            UnitctlError::EditorError { message } => ErrorModel::EditorError { message: message@ },
            UnitctlError::NoUnitInstancesError => ErrorModel::NoUnitInstancesError,
            UnitctlError::MultipleUnitInstancesError { suggestion } => {
                ErrorModel::MultipleUnitInstancesError { suggestion: suggestion@ }
            },
            UnitctlError::NoSocketPathError => ErrorModel::NoSocketPathError,
            UnitctlError::NoInputFileError => ErrorModel::NoInputFileError,
            UnitctlError::UiServerError { message } => ErrorModel::UiServerError {
                message: message@,
            },
            UnitctlError::UnitClientError { source } => ErrorModel::UnitClientError {
                source: source@,
            },
            UnitctlError::SerializationError { message } => ErrorModel::SerializationError {
                message: message@,
            },
            UnitctlError::DeserializationError { message } => ErrorModel::DeserializationError {
                message: message@,
            },
            UnitctlError::IoError { source } => ErrorModel::IoError { source: source@ },
            UnitctlError::PathNotFound { path } => ErrorModel::PathNotFound { path: path@ },
            UnitctlError::UnknownInputFileType { path } => ErrorModel::UnknownInputFileType {
                path: path@,
            },
            UnitctlError::NoFilesImported => ErrorModel::NoFilesImported,
            UnitctlError::WaitTimeoutError => ErrorModel::WaitTimeoutError,
        }
    }
}

impl ErrorModel {
    /// The process exit code of this failure.
    pub open spec fn exit_code(self) -> int {
        match self {
            ErrorModel::NoUnitInstancesError => 10,
            ErrorModel::MultipleUnitInstancesError { .. } => 11,
            ErrorModel::NoSocketPathError => 12,
            ErrorModel::UnitClientError { .. } => 13,
            ErrorModel::WaitTimeoutError => 14,
            _ => 99,
        }
    }

    /// Whether endpoint resolution may try again after this failure: only
    /// while the socket or the server is not there yet.
    pub open spec fn retryable(self) -> bool {
        match self {
            ErrorModel::ControlSocketError { kind, .. } => kind == ControlSocketErrorKind::NotFound,
            ErrorModel::NoUnitInstancesError => true,
            _ => false,
        }
    }

    /// The failure as one line of text.
    pub open spec fn text(self) -> Seq<char> {
        match self {
            ErrorModel::ControlSocketError { message, .. } => message,
            ErrorModel::CertificateError { message } => "Certificate error: "@ + message,
            ErrorModel::EditorError { message } => "Error opening editor: "@ + message,
            ErrorModel::NoUnitInstancesError => "No running unit instances found"@,
            ErrorModel::MultipleUnitInstancesError { suggestion } => {
                "Multiple unit instances found: "@ + suggestion
            },
            ErrorModel::NoSocketPathError => {
                "Unable to detect socket path from running instance"@
            },
            ErrorModel::NoInputFileError => "No input file specified when required"@,
            ErrorModel::UiServerError { message } => "UI server error: "@ + message,
            ErrorModel::UnitClientError { source } => "Unit client error: "@ + source.message,
            ErrorModel::SerializationError { message } => "Serialization error: "@ + message,
            ErrorModel::DeserializationError { message } => "Deserialization error: "@ + message,
            ErrorModel::IoError { source } => "IO error: "@ + source,
            ErrorModel::PathNotFound { path } => "Path not found: "@ + path,
            ErrorModel::UnknownInputFileType { path } => "Unknown input type for file: "@ + path,
            ErrorModel::NoFilesImported => "All imports failed"@,
            ErrorModel::WaitTimeoutError => {
                "Timeout waiting for unit to start has been exceeded"@
            },
        }
    }

    /// The lines shown to the operator for this failure. Most failures show
    /// their text. Ambiguous instances show the suggestion alone, and a
    /// delivery failure shows what helps the operator act on it.
    pub open spec fn report(self) -> Seq<Seq<char>> {
        match self {
            ErrorModel::MultipleUnitInstancesError { suggestion } => seq![suggestion],
            ErrorModel::UnitClientError { source } => match source.kind {
                ClientErrorKind::SocketPermissions => seq![
                    source.message,
                    "Try running again with the same permissions as the unit control socket"@,
                ],
                ClientErrorKind::OpenApi => seq!["OpenAPI Error: "@ + source.cause],
                ClientErrorKind::Other => seq![self.text()],
            },
            _ => seq![self.text()],
        }
    }
}

impl ControlSocketErrorKind {
    /// The name of the kind, followed by a line feed.
    pub open spec fn text(self) -> Seq<char> {
        match self {
            ControlSocketErrorKind::NotFound => "NotFound\n"@,
            ControlSocketErrorKind::Permissions => "Permissions\n"@,
            ControlSocketErrorKind::Parse => "Parse\n"@,
            ControlSocketErrorKind::General => "General\n"@,
        }
    }

    /// The name of the kind, followed by a line feed.
    pub fn to_string(&self) -> (text: String)
        ensures
            text@ == self.text(),
    {
        match self {
            ControlSocketErrorKind::NotFound => String::from_str("NotFound\n"),
            ControlSocketErrorKind::Permissions => String::from_str("Permissions\n"),
            ControlSocketErrorKind::Parse => String::from_str("Parse\n"),
            ControlSocketErrorKind::General => String::from_str("General\n"),
        }
    }
}

impl UnitctlError {
    /// The process exit code of this failure.
    pub fn exit_code(&self) -> (code: i32)
        ensures
            code == self@.exit_code(),
    {
        match self {
            UnitctlError::NoUnitInstancesError => 10,
            UnitctlError::MultipleUnitInstancesError { .. } => 11,
            UnitctlError::NoSocketPathError => 12,
            UnitctlError::UnitClientError { .. } => 13,
            UnitctlError::WaitTimeoutError => 14,
            _ => 99,
        }
    }

    /// Whether endpoint resolution may try again after this failure.
    pub fn retryable(&self) -> (again: bool)
        ensures
            again == self@.retryable(),
    {
        match self {
            UnitctlError::ControlSocketError { kind, .. } => {
                // the socket has not been created yet
                *kind == ControlSocketErrorKind::NotFound
            },
            // the server is not running yet
            UnitctlError::NoUnitInstancesError => true,
            _ => false,
        }
    }

    /// The exit code as the status byte that the process hands to its parent.
    pub fn exit_status(&self) -> (status: u8)
        ensures
            status == self@.exit_code(),
    {
        self.exit_code() as u8
    }

    /// The failure as one line of text.
    pub fn to_string(&self) -> (text: String)
        ensures
            text@ == self@.text(),
    {
        match self {
            UnitctlError::ControlSocketError { message, .. } => message.clone(),
            UnitctlError::CertificateError { message } => joined(
                "Certificate error: ",
                message.as_str(),
            ),
            UnitctlError::EditorError { message } => joined(
                "Error opening editor: ",
                message.as_str(),
            ),
            UnitctlError::NoUnitInstancesError => String::from_str(
                "No running unit instances found",
            ),
            UnitctlError::MultipleUnitInstancesError { suggestion } => joined(
                "Multiple unit instances found: ",
                suggestion.as_str(),
            ),
            UnitctlError::NoSocketPathError => String::from_str(
                "Unable to detect socket path from running instance",
            ),
            UnitctlError::NoInputFileError => String::from_str(
                "No input file specified when required",
            ),
            UnitctlError::UiServerError { message } => joined(
                "UI server error: ",
                message.as_str(),
            ),
            UnitctlError::UnitClientError { source } => joined(
                "Unit client error: ",
                source.message.as_str(),
            ),
            UnitctlError::SerializationError { message } => joined(
                "Serialization error: ",
                message.as_str(),
            ),
            UnitctlError::DeserializationError { message } => joined(
                "Deserialization error: ",
                message.as_str(),
            ),
            UnitctlError::IoError { source } => joined("IO error: ", source.as_str()),
            UnitctlError::PathNotFound { path } => joined("Path not found: ", path.as_str()),
            UnitctlError::UnknownInputFileType { path } => joined(
                "Unknown input type for file: ",
                path.as_str(),
            ),
            UnitctlError::NoFilesImported => String::from_str("All imports failed"),
            UnitctlError::WaitTimeoutError => String::from_str(
                "Timeout waiting for unit to start has been exceeded",
            ),
        }
    }

    /// The lines to show the operator for this failure, in order.
    pub fn report_lines(&self) -> (lines: Vec<String>)
        ensures
            string_views(lines@) == self@.report(),
    {
        let mut lines: Vec<String> = Vec::new();
        match self {
            UnitctlError::MultipleUnitInstancesError { suggestion } => {
                lines.push(suggestion.clone());
            },
            UnitctlError::UnitClientError { source } => match source.kind {
                ClientErrorKind::SocketPermissions => {
                    lines.push(source.message.clone());
                    lines.push(
                        String::from_str(
                            "Try running again with the same permissions as the unit control socket",
                        ),
                    );
                },
                ClientErrorKind::OpenApi => {
                    lines.push(joined("OpenAPI Error: ", source.cause.as_str()));
                },
                ClientErrorKind::Other => {
                    lines.push(self.to_string());
                },
            },
            _ => {
                lines.push(self.to_string());
            },
        }
        assert(string_views(lines@) =~= self@.report());
        lines
    }
}

/// The exit code of a failure is fixed by its kind alone, and is one of the six
/// documented codes: 10 for no running instance, 11 for several, 12 for an
/// instance without a socket path, 13 for a delivery failure, 14 for an
/// exhausted wait, and 99 for every other kind. Each fits the status byte of a
/// process and none is the 0 of a clean exit.
pub proof fn exit_code_is_documented(error: ErrorModel)
    ensures
        error.exit_code() == 10 <==> error is NoUnitInstancesError,
        error.exit_code() == 11 <==> error is MultipleUnitInstancesError,
        error.exit_code() == 12 <==> error is NoSocketPathError,
        error.exit_code() == 13 <==> error is UnitClientError,
        error.exit_code() == 14 <==> error is WaitTimeoutError,
        error.exit_code() == 99 <==> !(error is NoUnitInstancesError
            || error is MultipleUnitInstancesError || error is NoSocketPathError
            || error is UnitClientError || error is WaitTimeoutError),
        0 < error.exit_code() <= u8::MAX,
{
}

/// Only two kinds of failure may be tried again: a control socket that is not
/// found, which exits with 99, and the absence of any running instance, which
/// exits with 10. A timeout, an ambiguity and a denied permission never are.
pub proof fn retryable_kinds(error: ErrorModel)
    ensures
        error.retryable() <==> (error is NoUnitInstancesError || (error matches
        ErrorModel::ControlSocketError { kind, .. } && kind == ControlSocketErrorKind::NotFound)),
        error.retryable() ==> error.exit_code() == 10 || error.exit_code() == 99,
        error.exit_code() == 11 || error.exit_code() == 12 || error.exit_code() == 13
            || error.exit_code() == 14 ==> !error.retryable(),
{
}

} // verus!
