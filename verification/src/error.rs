//! What can go wrong, and whether it stops the work on a container.

use vstd::prelude::*;

verus! {

/// The five families of failure.
#[derive(Clone, Copy, Debug, PartialEq, Eq, Structural)]
pub enum ErrorKind {
    /// A path that is absent, a wrong extension, or bytes that are no container.
    InvalidInput,
    /// The binary codec could not load or save a container.
    CodecFailure,
    /// A record variant without a routing decision.
    ClassificationGap,
    /// One record could not be written to, or read from, text.
    FormatFailure,
    /// A directory or a file could not be created, read or written.
    IOFailure,
}

/// A failure of the dump or of the pack.
#[derive(Clone, Copy, Debug, PartialEq, Eq, Structural)]
pub enum Error {
    /// No input path was given.
    NoInput,
    /// The input path names nothing.
    InputNotFound,
    /// The input file does not carry a container extension.
    WrongExtension,
    /// The bytes do not begin with the container signature.
    BadSignature,
    /// The codec refused the container.
    Codec,
    /// A record carries a type tag that no variant has.
    UnknownTag,
    /// A record failed to convert to or from text.
    Format,
    /// A directory or file operation failed.
    Io,
    /// No header record was found among the records to pack.
    MissingHeader,
    /// Some file did not yield a record, and an incomplete container was not asked for.
    Incomplete,
}

impl Error {
    /// The family a failure belongs to.
    pub open spec fn spec_kind(self) -> ErrorKind {
        match self {
            Error::NoInput | Error::InputNotFound | Error::WrongExtension | Error::BadSignature
            | Error::MissingHeader => ErrorKind::InvalidInput,
            Error::Codec => ErrorKind::CodecFailure,
            Error::UnknownTag => ErrorKind::ClassificationGap,
            Error::Format | Error::Incomplete => ErrorKind::FormatFailure,
            Error::Io => ErrorKind::IOFailure,
        }
    }

    /// A failure of one record's conversion or write is noted and the record skipped;
    /// every other failure ends the work on its container.
    pub open spec fn spec_is_fatal(self) -> bool {
        !(self == Error::Format || self == Error::Io)
    }

    /// The message shown for the failure.
    pub open spec fn spec_message(self) -> Seq<char> {
        match self {
            Error::NoInput => "No input path specified."@,
            Error::InputNotFound => "Input path does not exist"@,
            Error::WrongExtension => "Input file is not a plugin."@,
            Error::BadSignature => "Invalid input."@,
            Error::Codec => "Plugin parsing failed."@,
            Error::UnknownTag => "Unknown record type."@,
            Error::Format => "Record conversion failed."@,
            Error::Io => "File write failed"@,
            Error::MissingHeader => "No header record found."@,
            Error::Incomplete => "Not every file holds a record."@,
        }
    }

    /// The family a failure belongs to.
    pub fn kind(&self) -> (r: ErrorKind)
        ensures
            r == self.spec_kind(),
    {
        match self {
            Error::NoInput | Error::InputNotFound | Error::WrongExtension | Error::BadSignature
            | Error::MissingHeader => ErrorKind::InvalidInput,
            Error::Codec => ErrorKind::CodecFailure,
            Error::UnknownTag => ErrorKind::ClassificationGap,
            Error::Format | Error::Incomplete => ErrorKind::FormatFailure,
            Error::Io => ErrorKind::IOFailure,
        }
    }

    /// Whether the failure ends the work on its container.
    pub fn is_fatal(&self) -> (r: bool)
        ensures
            r == self.spec_is_fatal(),
    {
        !matches!(self, Error::Format | Error::Io)
    }

    /// The message shown for the failure.
    pub fn message(&self) -> (r: String)
        ensures
            r@ == self.spec_message(),
    {
        let text: &'static str = match self {
            Error::NoInput => "No input path specified.",
            Error::InputNotFound => "Input path does not exist",
            Error::WrongExtension => "Input file is not a plugin.",
            Error::BadSignature => "Invalid input.",
            Error::Codec => "Plugin parsing failed.",
            Error::UnknownTag => "Unknown record type.",
            Error::Format => "Record conversion failed.",
            Error::Io => "File write failed",
            Error::MissingHeader => "No header record found.",
            Error::Incomplete => "Not every file holds a record.",
        };
        text.to_owned()
    }
}

/// The first failure among the outcomes of the containers of a sweep, each of which was
/// worked on whatever became of the others.
pub open spec fn spec_first_failure(outcomes: Seq<Result<(), Error>>) -> Result<(), Error>
    decreases outcomes.len(),
{
    if outcomes.len() == 0 {
        Ok(())
    } else if outcomes[0] is Err {
        outcomes[0]
    } else {
        spec_first_failure(outcomes.drop_first())
    }
}

/// The outcome of a sweep: the first container failure, if any container failed.
pub fn first_failure(outcomes: &Vec<Result<(), Error>>) -> (r: Result<(), Error>)
    ensures
        r == spec_first_failure(outcomes@),
        r is Ok <==> forall|i: int| 0 <= i < outcomes.len() ==> outcomes[i] is Ok,
{
    let mut i: usize = 0;
    assert(outcomes@.skip(0) == outcomes@);
    while i < outcomes.len()
        invariant
            i <= outcomes.len(),
            forall|j: int| 0 <= j < i ==> outcomes[j] is Ok,
            spec_first_failure(outcomes@) == spec_first_failure(outcomes@.skip(i as int)),
        decreases outcomes.len() - i,
    {
        assert(outcomes@.skip(i as int).drop_first() == outcomes@.skip(i + 1));
        match outcomes[i] {
            Ok(()) => {},
            Err(e) => {
                return Err(e);
            },
        }
        i += 1;
    }
    Ok(())
}

} // verus!
