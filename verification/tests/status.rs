use file_writer::{FileWriterError, FileWriterMode, IoFailure};

#[test]
fn status_codes_are_the_stable_ordinals() {
    assert_eq!(FileWriterError::Success.code(), 0);
    assert_eq!(FileWriterError::FileOpenError.code(), 1);
    assert_eq!(FileWriterError::FileWriteError.code(), 2);
    assert_eq!(FileWriterError::FileCloseError.code(), 3);
    assert_eq!(FileWriterError::InvalidHandle.code(), 4);
    assert_eq!(FileWriterError::InvalidPath.code(), 5);
    assert_eq!(FileWriterError::InvalidData.code(), 6);
    assert_eq!(FileWriterError::IoError.code(), 7);
}

#[test]
fn failure_kinds_map_to_statuses() {
    assert_eq!(
        FileWriterError::from_failure(IoFailure::PermissionDenied),
        FileWriterError::FileOpenError
    );
    assert_eq!(FileWriterError::from_failure(IoFailure::NotFound), FileWriterError::FileOpenError);
    assert_eq!(FileWriterError::from_failure(IoFailure::Other), FileWriterError::IoError);
}

#[test]
fn missing_entry_is_a_failure_to_open() {
    let err = std::io::Error::from(std::io::ErrorKind::NotFound);
    assert_eq!(FileWriterError::from(err), FileWriterError::FileOpenError);
}

#[test]
fn denied_permission_is_a_failure_to_open() {
    let err = std::io::Error::from(std::io::ErrorKind::PermissionDenied);
    assert_eq!(FileWriterError::from(err), FileWriterError::FileOpenError);
}

#[test]
fn other_storage_failures_are_io_errors() {
    let kinds = [
        std::io::ErrorKind::AlreadyExists,
        std::io::ErrorKind::WriteZero,
        std::io::ErrorKind::Interrupted,
        std::io::ErrorKind::UnexpectedEof,
        std::io::ErrorKind::Other,
    ];
    for kind in kinds {
        assert_eq!(FileWriterError::from(std::io::Error::from(kind)), FileWriterError::IoError);
    }
}

#[test]
fn modes_are_distinct() {
    assert_ne!(FileWriterMode::Append, FileWriterMode::Write);
}
