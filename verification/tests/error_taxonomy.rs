use unitctl::unitctl_error::{ClientError, ClientErrorKind, ControlSocketErrorKind, UnitctlError};

fn text(s: &str) -> String {
    String::from(s)
}

fn client_error(kind: ClientErrorKind) -> UnitctlError {
    UnitctlError::UnitClientError {
        source: ClientError { kind, message: text("connection refused"), cause: text("bad json") },
    }
}

fn socket_error(kind: ControlSocketErrorKind) -> UnitctlError {
    UnitctlError::ControlSocketError { kind, message: text("socket trouble") }
}

fn every_kind() -> Vec<UnitctlError> {
    vec![
        socket_error(ControlSocketErrorKind::NotFound),
        socket_error(ControlSocketErrorKind::Permissions),
        socket_error(ControlSocketErrorKind::Parse),
        socket_error(ControlSocketErrorKind::General),
        UnitctlError::CertificateError { message: text("expired") },
        UnitctlError::EditorError { message: text("vi missing") },
        UnitctlError::NoUnitInstancesError,
        UnitctlError::MultipleUnitInstancesError { suggestion: text("pick one") },
        UnitctlError::NoSocketPathError,
        UnitctlError::NoInputFileError,
        UnitctlError::UiServerError { message: text("address in use") },
        client_error(ClientErrorKind::SocketPermissions),
        client_error(ClientErrorKind::OpenApi),
        client_error(ClientErrorKind::Other),
        UnitctlError::SerializationError { message: text("not a map") },
        UnitctlError::DeserializationError { message: text("eof") },
        UnitctlError::IoError { source: text("disk full") },
        UnitctlError::PathNotFound { path: text("/etc/unit.json") },
        UnitctlError::UnknownInputFileType { path: text("conf.xml") },
        UnitctlError::NoFilesImported,
        UnitctlError::WaitTimeoutError,
    ]
}

#[test]
fn exit_codes_follow_the_table() {
    let expected: Vec<i32> =
        vec![99, 99, 99, 99, 99, 99, 10, 11, 12, 99, 99, 13, 13, 13, 99, 99, 99, 99, 99, 99, 14];
    let kinds = every_kind();
    assert_eq!(kinds.len(), expected.len());
    for (error, code) in kinds.iter().zip(expected.iter()) {
        assert_eq!(error.exit_code(), *code, "{:?}", error);
    }
}

#[test]
fn exit_code_is_the_same_on_every_call() {
    for error in every_kind() {
        let first: i32 = error.exit_code();
        let second: i32 = error.exit_code();
        assert_eq!(first, second);
        assert_eq!(error.clone().exit_code(), first);
    }
}

#[test]
fn exit_code_ignores_the_message() {
    let short = UnitctlError::MultipleUnitInstancesError { suggestion: text("a") };
    let long = UnitctlError::MultipleUnitInstancesError { suggestion: text("a, b, c") };
    assert_eq!(short.exit_code(), 11);
    assert_eq!(long.exit_code(), 11);
}

#[test]
fn exit_status_is_the_exit_code_as_a_byte() {
    for error in every_kind() {
        assert_eq!(i32::from(error.exit_status()), error.exit_code());
        assert_ne!(error.exit_status(), 0u8);
    }
    assert_eq!(UnitctlError::WaitTimeoutError.exit_status(), 14u8);
    assert_eq!(UnitctlError::NoFilesImported.exit_status(), 99u8);
}

#[test]
fn only_a_missing_socket_or_server_is_retryable() {
    let expected: Vec<bool> = vec![
        true, false, false, false, false, false, true, false, false, false, false, false, false,
        false, false, false, false, false, false, false, false,
    ];
    let kinds = every_kind();
    assert_eq!(kinds.len(), expected.len());
    for (error, again) in kinds.iter().zip(expected.iter()) {
        assert_eq!(error.retryable(), *again, "{:?}", error);
    }
}

#[test]
fn socket_kind_renders_its_name_and_a_line_feed() {
    assert_eq!(ControlSocketErrorKind::NotFound.to_string(), "NotFound\n");
    assert_eq!(ControlSocketErrorKind::Permissions.to_string(), "Permissions\n");
    assert_eq!(ControlSocketErrorKind::Parse.to_string(), "Parse\n");
    assert_eq!(ControlSocketErrorKind::General.to_string(), "General\n");
}

#[test]
fn every_kind_renders_its_text() {
    let expected: Vec<&str> = vec![
        "socket trouble",
        "socket trouble",
        "socket trouble",
        "socket trouble",
        "Certificate error: expired",
        "Error opening editor: vi missing",
        "No running unit instances found",
        "Multiple unit instances found: pick one",
        "Unable to detect socket path from running instance",
        "No input file specified when required",
        "UI server error: address in use",
        "Unit client error: connection refused",
        "Unit client error: connection refused",
        "Unit client error: connection refused",
        "Serialization error: not a map",
        "Deserialization error: eof",
        "IO error: disk full",
        "Path not found: /etc/unit.json",
        "Unknown input type for file: conf.xml",
        "All imports failed",
        "Timeout waiting for unit to start has been exceeded",
    ];
    let kinds = every_kind();
    assert_eq!(kinds.len(), expected.len());
    for (error, line) in kinds.iter().zip(expected.iter()) {
        assert_eq!(error.to_string(), *line);
    }
}

#[test]
fn report_shows_the_text_of_most_kinds() {
    for error in every_kind() {
        let plain = match &error {
            UnitctlError::MultipleUnitInstancesError { .. } => false,
            UnitctlError::UnitClientError { source } => source.kind == ClientErrorKind::Other,
            _ => true,
        };
        if plain {
            assert_eq!(error.report_lines(), vec![error.to_string()]);
        }
    }
}

#[test]
fn report_of_ambiguity_is_the_suggestion_alone() {
    let error = UnitctlError::MultipleUnitInstancesError { suggestion: text("pick one") };
    assert_eq!(error.report_lines(), vec![text("pick one")]);
}

#[test]
fn report_of_denied_socket_adds_advice() {
    let error = client_error(ClientErrorKind::SocketPermissions);
    assert_eq!(
        error.report_lines(),
        vec![
            text("connection refused"),
            text("Try running again with the same permissions as the unit control socket"),
        ]
    );
}

#[test]
fn report_of_api_error_shows_the_cause() {
    let error = client_error(ClientErrorKind::OpenApi);
    assert_eq!(error.report_lines(), vec![text("OpenAPI Error: bad json")]);
}

#[test]
fn report_of_other_client_error_shows_its_text() {
    let error = client_error(ClientErrorKind::Other);
    assert_eq!(error.report_lines(), vec![text("Unit client error: connection refused")]);
}

#[test]
fn empty_message_renders_the_prefix_alone() {
    let error = UnitctlError::PathNotFound { path: String::new() };
    assert_eq!(error.to_string(), "Path not found: ");
    let bare = UnitctlError::ControlSocketError {
        kind: ControlSocketErrorKind::Parse,
        message: String::new(),
    };
    assert_eq!(bare.to_string(), "");
    assert_eq!(bare.report_lines(), vec![String::new()]);
}
