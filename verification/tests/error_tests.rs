use mwscript::error::first_failure;
use mwscript::error::Error;
use mwscript::error::ErrorKind;

#[test]
fn kinds_of_the_failures() {
    assert_eq!(Error::NoInput.kind(), ErrorKind::InvalidInput);
    assert_eq!(Error::InputNotFound.kind(), ErrorKind::InvalidInput);
    assert_eq!(Error::WrongExtension.kind(), ErrorKind::InvalidInput);
    assert_eq!(Error::BadSignature.kind(), ErrorKind::InvalidInput);
    assert_eq!(Error::MissingHeader.kind(), ErrorKind::InvalidInput);
    assert_eq!(Error::Codec.kind(), ErrorKind::CodecFailure);
    assert_eq!(Error::UnknownTag.kind(), ErrorKind::ClassificationGap);
    assert_eq!(Error::Format.kind(), ErrorKind::FormatFailure);
    assert_eq!(Error::Incomplete.kind(), ErrorKind::FormatFailure);
    assert_eq!(Error::Io.kind(), ErrorKind::IOFailure);
}

#[test]
fn record_level_failures_are_not_fatal() {
    assert!(!Error::Format.is_fatal());
    assert!(!Error::Io.is_fatal());
    for e in [
        Error::NoInput,
        Error::InputNotFound,
        Error::WrongExtension,
        Error::BadSignature,
        Error::Codec,
        Error::UnknownTag,
        Error::MissingHeader,
        Error::Incomplete,
    ] {
        assert!(e.is_fatal());
    }
}

#[test]
fn messages() {
    assert_eq!(Error::NoInput.message(), "No input path specified.");
    assert_eq!(Error::InputNotFound.message(), "Input path does not exist");
    assert_eq!(Error::BadSignature.message(), "Invalid input.");
    assert_eq!(Error::Codec.message(), "Plugin parsing failed.");
    assert_eq!(Error::Io.message(), "File write failed");
    assert_eq!(Error::MissingHeader.message(), "No header record found.");
}

#[test]
fn first_failure_of_a_sweep() {
    assert_eq!(first_failure(&vec![]), Ok(()));
    assert_eq!(first_failure(&vec![Ok(()), Ok(())]), Ok(()));
    assert_eq!(
        first_failure(&vec![Ok(()), Err(Error::Codec), Err(Error::BadSignature)]),
        Err(Error::Codec)
    );
    assert_eq!(
        first_failure(&vec![Err(Error::BadSignature), Ok(())]),
        Err(Error::BadSignature)
    );
}
