use vstd::prelude::*;
use crate::tag::Tag;

verus! {

/// The point at which the decoder gave up on a byte stream.
#[derive(Clone, Copy, Debug, PartialEq, Eq, Structural)]
pub enum ReadFailure {
    /// The stream is too short to hold the preamble or the magic code.
    Preamble,
    /// The magic code `DICM` is not where it belongs.
    MagicCode,
    /// The file meta group that follows the magic code could not be read.
    MetaGroup,
    /// The meta group names a transfer syntax that cannot be decoded.
    TransferSyntax,
    /// A length field of the data set holds a value that cannot be right.
    ElementLength,
    /// A header or a value of the data set could not be read in full.
    ElementRead,
    /// The data set ended inside an element or a sequence.
    Incomplete,
    /// The data set is put together in a way that was not expected.
    Other,
}

/// Why a byte stream was rejected.
#[derive(Clone, Copy, Debug, PartialEq, Eq, Structural)]
pub enum ParseError {
    /// The preamble, the magic code or the meta group is missing or broken.
    NotDicom,
    /// The stream ends inside an element.
    TruncatedStream,
    /// A length field holds a value that cannot be right.
    InvalidLength,
    /// The stream is encoded in a transfer syntax that cannot be decoded.
    UnsupportedTransferSyntax,
    /// The elements are nested in a way that the format does not allow.
    Malformed,
}

impl ParseError {
    /// The error reported for each way in which decoding can fail.
    pub open spec fn of(failure: ReadFailure) -> ParseError {
        match failure {
            ReadFailure::Preamble => ParseError::NotDicom,
            ReadFailure::MagicCode => ParseError::NotDicom,
            ReadFailure::MetaGroup => ParseError::NotDicom,
            ReadFailure::TransferSyntax => ParseError::UnsupportedTransferSyntax,
            ReadFailure::ElementLength => ParseError::InvalidLength,
            ReadFailure::ElementRead => ParseError::TruncatedStream,
            ReadFailure::Incomplete => ParseError::TruncatedStream,
            ReadFailure::Other => ParseError::Malformed,
        }
    }

    pub fn from_failure(failure: ReadFailure) -> (error: ParseError)
        ensures
            error == ParseError::of(failure),
    {
        match failure {
            ReadFailure::Preamble | ReadFailure::MagicCode | ReadFailure::MetaGroup => {
                ParseError::NotDicom
            },
            ReadFailure::TransferSyntax => ParseError::UnsupportedTransferSyntax,
            ReadFailure::ElementLength => ParseError::InvalidLength,
            ReadFailure::ElementRead | ReadFailure::Incomplete => ParseError::TruncatedStream,
            ReadFailure::Other => ParseError::Malformed,
        }
    }
}

/// Why one attribute could not be read or changed.
#[derive(Clone, Copy, Debug, PartialEq, Eq, Structural)]
pub enum AttributeError {
    /// The dictionary has no attribute of that name.
    UnknownAttributeName,
    /// The index holds no element with that tag.
    AttributeNotFound,
    /// The element holds nested data, which has no reading as text.
    NotText,
}

/// Why an edit of a byte stream failed. Positions count from zero.
#[derive(Clone, Copy, Debug, PartialEq, Eq, Structural)]
pub enum EditError {
    /// The input stream was rejected.
    Parse(ParseError),
    /// The request at `position` carries an operation code that names no
    /// operation.
    MalformedOperationList { position: usize },
    /// The operation at `position`, aimed at `tag`, failed.
    Operation { position: usize, tag: Tag, kind: AttributeError },
    /// The attribute asked for at `position` could not be read.
    Attribute { position: usize, kind: AttributeError },
    /// The encoder refused the edited index.
    Encode,
}

} // verus!
