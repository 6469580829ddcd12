use net_comms::error::{NetCommsError, NetCommsErrorKind};
use net_comms::error_testing;

#[test]
fn error_without_message_names_its_kind() {
    let e = NetCommsError::new(NetCommsErrorKind::InvalidBufferSize, None);
    assert_eq!(e.output(), " Invalid Buffer Size");
    let e = NetCommsError::new(NetCommsErrorKind::UnknownMessageKind, None);
    assert_eq!(e.to_string(), " Unknown MessageKind");
}

#[test]
fn error_with_message_shows_it() {
    let e = NetCommsError::new(
        NetCommsErrorKind::OpeningFileFailed,
        Some(String::from("Failed to open a file.")),
    );
    let ind = " ".repeat(20);
    assert_eq!(
        e.output(),
        format!(
            "\n{ind}\n\n{ind}NetCommsError(Opening File Failed):\n\n{ind}Failed to open a file.\n\n{ind}source:\n\n{ind}"
        )
    );
    let e = NetCommsError::new(NetCommsErrorKind::DeserializingFailed, Some(String::from("x")));
    assert_eq!(
        e.output(),
        format!("\n\n{ind}NetCommsError(Deserializing Failed):\n\n{ind}x\n\n{ind}source:\n\n{ind}")
    );
}

#[test]
fn error_kind_titles() {
    assert_eq!(NetCommsErrorKind::IncompleteMetaData.title(), "Incomplete MetaData");
    assert_eq!(NetCommsErrorKind::ReadingFromStreamFailed.title(), "Reading From Stream Failed");
    assert_eq!(NetCommsErrorKind::UnknownCommand.to_string(), "NetCommsErrorKind");
}

#[derive(Debug, PartialEq)]
enum TestKind {
    Broken,
}

impl error_testing::NetCommsErrorType for TestKind {}

#[test]
fn generic_error_keeps_kind_and_message() {
    let e = error_testing::NetCommsError::new(TestKind::Broken, Some(String::from("x")));
    assert_eq!(e.kind, TestKind::Broken);
    assert_eq!(e.message.as_deref(), Some("x"));
}
