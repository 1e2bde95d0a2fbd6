//! Status codes and the text that reports each of them.
use num_traits::FromPrimitive;
use vstd::prelude::*;

verus! {

/// The status of a response.
#[derive(Debug, Clone, Copy, PartialEq, Eq, Structural)]
pub enum StatusCode {
    SuccessfulOk,
    SuccessfulOkIgnoredOrSubstitutedAttributes,
    SuccessfulOkConflictingAttributes,
    ClientErrorBadRequest,
    ClientErrorForbidden,
    ClientErrorNotAuthenticated,
    ClientErrorNotAuthorized,
    ClientErrorNotPossible,
    ClientErrorTimeout,
    ClientErrorNotFound,
    ClientErrorGone,
    ClientErrorRequestEntityTooLong,
    ClientErrorRequestValueTooLong,
    ClientErrorDocumentFormatNotSupported,
    ClientErrorAttributesOrValuesNotSupported,
    ClientErrorUriSchemeNotSupported,
    ClientErrorCharsetNotSupported,
    ClientErrorConflictingAttributes,
    ClientErrorCompressionNotSupported,
    ClientErrorCompressionError,
    ClientErrorDocumentFormatError,
    ClientErrorDocumentAccessError,
    ServerErrorInternalError,
    ServerErrorOperationNotSupported,
    ServerErrorServiceUnavailable,
    ServerErrorVersionNotSupported,
    ServerErrorDeviceError,
    ServerErrorTemporaryError,
    ServerErrorNotAcceptingJobs,
    ServerErrorBusy,
    ServerErrorJobCanceled,
    ServerErrorMultipleDocumentJobsNotSupported,
    UnknownStatusCode,
}

impl StatusCode {
    /// The status code's number in a response header.
    pub open spec fn code(self) -> u16 {
        match self {
            StatusCode::SuccessfulOk => 0x0000,
            StatusCode::SuccessfulOkIgnoredOrSubstitutedAttributes => 0x0001,
            StatusCode::SuccessfulOkConflictingAttributes => 0x0002,
            StatusCode::ClientErrorBadRequest => 0x0400,
            StatusCode::ClientErrorForbidden => 0x0401,
            StatusCode::ClientErrorNotAuthenticated => 0x0402,
            StatusCode::ClientErrorNotAuthorized => 0x0403,
            StatusCode::ClientErrorNotPossible => 0x0404,
            StatusCode::ClientErrorTimeout => 0x0405,
            StatusCode::ClientErrorNotFound => 0x0406,
            StatusCode::ClientErrorGone => 0x0407,
            StatusCode::ClientErrorRequestEntityTooLong => 0x0408,
            StatusCode::ClientErrorRequestValueTooLong => 0x0409,
            StatusCode::ClientErrorDocumentFormatNotSupported => 0x040A,
            StatusCode::ClientErrorAttributesOrValuesNotSupported => 0x040B,
            StatusCode::ClientErrorUriSchemeNotSupported => 0x040C,
            StatusCode::ClientErrorCharsetNotSupported => 0x040D,
            StatusCode::ClientErrorConflictingAttributes => 0x040E,
            StatusCode::ClientErrorCompressionNotSupported => 0x040F,
            StatusCode::ClientErrorCompressionError => 0x0410,
            StatusCode::ClientErrorDocumentFormatError => 0x0411,
            StatusCode::ClientErrorDocumentAccessError => 0x0412,
            StatusCode::ServerErrorInternalError => 0x0500,
            StatusCode::ServerErrorOperationNotSupported => 0x0501,
            StatusCode::ServerErrorServiceUnavailable => 0x0502,
            StatusCode::ServerErrorVersionNotSupported => 0x0503,
            StatusCode::ServerErrorDeviceError => 0x0504,
            StatusCode::ServerErrorTemporaryError => 0x0505,
            StatusCode::ServerErrorNotAcceptingJobs => 0x0506,
            StatusCode::ServerErrorBusy => 0x0507,
            StatusCode::ServerErrorJobCanceled => 0x0508,
            StatusCode::ServerErrorMultipleDocumentJobsNotSupported => 0x0509,
            StatusCode::UnknownStatusCode => 0xFFFF,
        }
    }

    /// The status that `code` stands for, if it stands for one.
    pub open spec fn of_code(code: u16) -> Option<StatusCode> {
        if code == 0x0000 {
            Some(StatusCode::SuccessfulOk)
        } else if code == 0x0001 {
            Some(StatusCode::SuccessfulOkIgnoredOrSubstitutedAttributes)
        } else if code == 0x0002 {
            Some(StatusCode::SuccessfulOkConflictingAttributes)
        } else if code == 0x0400 {
            Some(StatusCode::ClientErrorBadRequest)
        } else if code == 0x0401 {
            Some(StatusCode::ClientErrorForbidden)
        } else if code == 0x0402 {
            Some(StatusCode::ClientErrorNotAuthenticated)
        } else if code == 0x0403 {
            Some(StatusCode::ClientErrorNotAuthorized)
        } else if code == 0x0404 {
            Some(StatusCode::ClientErrorNotPossible)
        } else if code == 0x0405 {
            Some(StatusCode::ClientErrorTimeout)
        } else if code == 0x0406 {
            Some(StatusCode::ClientErrorNotFound)
        } else if code == 0x0407 {
            Some(StatusCode::ClientErrorGone)
        } else if code == 0x0408 {
            Some(StatusCode::ClientErrorRequestEntityTooLong)
        } else if code == 0x0409 {
            Some(StatusCode::ClientErrorRequestValueTooLong)
        } else if code == 0x040A {
            Some(StatusCode::ClientErrorDocumentFormatNotSupported)
        } else if code == 0x040B {
            Some(StatusCode::ClientErrorAttributesOrValuesNotSupported)
        } else if code == 0x040C {
            Some(StatusCode::ClientErrorUriSchemeNotSupported)
        } else if code == 0x040D {
            Some(StatusCode::ClientErrorCharsetNotSupported)
        } else if code == 0x040E {
            Some(StatusCode::ClientErrorConflictingAttributes)
        } else if code == 0x040F {
            Some(StatusCode::ClientErrorCompressionNotSupported)
        } else if code == 0x0410 {
            Some(StatusCode::ClientErrorCompressionError)
        } else if code == 0x0411 {
            Some(StatusCode::ClientErrorDocumentFormatError)
        } else if code == 0x0412 {
            Some(StatusCode::ClientErrorDocumentAccessError)
        } else if code == 0x0500 {
            Some(StatusCode::ServerErrorInternalError)
        } else if code == 0x0501 {
            Some(StatusCode::ServerErrorOperationNotSupported)
        } else if code == 0x0502 {
            Some(StatusCode::ServerErrorServiceUnavailable)
        } else if code == 0x0503 {
            Some(StatusCode::ServerErrorVersionNotSupported)
        } else if code == 0x0504 {
            Some(StatusCode::ServerErrorDeviceError)
        } else if code == 0x0505 {
            Some(StatusCode::ServerErrorTemporaryError)
        } else if code == 0x0506 {
            Some(StatusCode::ServerErrorNotAcceptingJobs)
        } else if code == 0x0507 {
            Some(StatusCode::ServerErrorBusy)
        } else if code == 0x0508 {
            Some(StatusCode::ServerErrorJobCanceled)
        } else if code == 0x0509 {
            Some(StatusCode::ServerErrorMultipleDocumentJobsNotSupported)
        } else if code == 0xFFFF {
            Some(StatusCode::UnknownStatusCode)
        } else {
            None
        }
    }

    /// The words that report this status.
    pub open spec fn text(self) -> Seq<char> {
        match self {
            StatusCode::SuccessfulOk => "No error"@,
            StatusCode::SuccessfulOkIgnoredOrSubstitutedAttributes => "Ignored or substituted attributes"@,
            StatusCode::SuccessfulOkConflictingAttributes => "Conflicting attributes"@,
            StatusCode::ClientErrorBadRequest => "Bad request"@,
            StatusCode::ClientErrorForbidden => "Forbidden"@,
            StatusCode::ClientErrorNotAuthenticated => "Not authenticated"@,
            StatusCode::ClientErrorNotAuthorized => "Not authorized"@,
            StatusCode::ClientErrorNotPossible => "Not possible"@,
            StatusCode::ClientErrorTimeout => "Timeout"@,
            StatusCode::ClientErrorNotFound => "Not found"@,
            StatusCode::ClientErrorGone => "Gone"@,
            StatusCode::ClientErrorRequestEntityTooLong => "Entity too long"@,
            StatusCode::ClientErrorRequestValueTooLong => "Request value too long"@,
            StatusCode::ClientErrorDocumentFormatNotSupported => "Document format not supported"@,
            StatusCode::ClientErrorAttributesOrValuesNotSupported => "Attributes or values not supported"@,
            StatusCode::ClientErrorUriSchemeNotSupported => "Uri scheme not supported"@,
            StatusCode::ClientErrorCharsetNotSupported => "Charset not supported"@,
            StatusCode::ClientErrorConflictingAttributes => "Conflicting attributes"@,
            StatusCode::ClientErrorCompressionNotSupported => "Compression not supported"@,
            StatusCode::ClientErrorCompressionError => "Compression error"@,
            StatusCode::ClientErrorDocumentFormatError => "Document format error"@,
            StatusCode::ClientErrorDocumentAccessError => "Document access error"@,
            StatusCode::ServerErrorInternalError => "Internal error"@,
            StatusCode::ServerErrorOperationNotSupported => "Operation not supported"@,
            StatusCode::ServerErrorServiceUnavailable => "Service unavailable"@,
            StatusCode::ServerErrorVersionNotSupported => "Version not supported"@,
            StatusCode::ServerErrorDeviceError => "Device error"@,
            StatusCode::ServerErrorTemporaryError => "Temporary error"@,
            StatusCode::ServerErrorNotAcceptingJobs => "Not accepting jobs"@,
            StatusCode::ServerErrorBusy => "Busy"@,
            StatusCode::ServerErrorJobCanceled => "Job canceled"@,
            StatusCode::ServerErrorMultipleDocumentJobsNotSupported => "Multiple document jobs not supported"@,
            StatusCode::UnknownStatusCode => "Unknown status code"@,
        }
    }

    /// Whether this status reports success.
    pub open spec fn successful(self) -> bool {
        self.code() < 0x0100
    }

    /// The status code's number in a response header.
    pub fn to_u16(self) -> (r: u16)
        ensures
            r == self.code(),
    {
        match self {
            StatusCode::SuccessfulOk => 0x0000,
            StatusCode::SuccessfulOkIgnoredOrSubstitutedAttributes => 0x0001,
            StatusCode::SuccessfulOkConflictingAttributes => 0x0002,
            StatusCode::ClientErrorBadRequest => 0x0400,
            StatusCode::ClientErrorForbidden => 0x0401,
            StatusCode::ClientErrorNotAuthenticated => 0x0402,
            StatusCode::ClientErrorNotAuthorized => 0x0403,
            StatusCode::ClientErrorNotPossible => 0x0404,
            StatusCode::ClientErrorTimeout => 0x0405,
            StatusCode::ClientErrorNotFound => 0x0406,
            StatusCode::ClientErrorGone => 0x0407,
            StatusCode::ClientErrorRequestEntityTooLong => 0x0408,
            StatusCode::ClientErrorRequestValueTooLong => 0x0409,
            StatusCode::ClientErrorDocumentFormatNotSupported => 0x040A,
            StatusCode::ClientErrorAttributesOrValuesNotSupported => 0x040B,
            StatusCode::ClientErrorUriSchemeNotSupported => 0x040C,
            StatusCode::ClientErrorCharsetNotSupported => 0x040D,
            StatusCode::ClientErrorConflictingAttributes => 0x040E,
            StatusCode::ClientErrorCompressionNotSupported => 0x040F,
            StatusCode::ClientErrorCompressionError => 0x0410,
            StatusCode::ClientErrorDocumentFormatError => 0x0411,
            StatusCode::ClientErrorDocumentAccessError => 0x0412,
            StatusCode::ServerErrorInternalError => 0x0500,
            StatusCode::ServerErrorOperationNotSupported => 0x0501,
            StatusCode::ServerErrorServiceUnavailable => 0x0502,
            StatusCode::ServerErrorVersionNotSupported => 0x0503,
            StatusCode::ServerErrorDeviceError => 0x0504,
            StatusCode::ServerErrorTemporaryError => 0x0505,
            StatusCode::ServerErrorNotAcceptingJobs => 0x0506,
            StatusCode::ServerErrorBusy => 0x0507,
            StatusCode::ServerErrorJobCanceled => 0x0508,
            StatusCode::ServerErrorMultipleDocumentJobsNotSupported => 0x0509,
            StatusCode::UnknownStatusCode => 0xFFFF,
        }
    }

    /// The status that `code` stands for, if it stands for one.
    pub fn from_u16(code: u16) -> (r: Option<StatusCode>)
        ensures
            r == Self::of_code(code),
    {
        if code == 0x0000 {
            Some(StatusCode::SuccessfulOk)
        } else if code == 0x0001 {
            Some(StatusCode::SuccessfulOkIgnoredOrSubstitutedAttributes)
        } else if code == 0x0002 {
            Some(StatusCode::SuccessfulOkConflictingAttributes)
        } else if code == 0x0400 {
            Some(StatusCode::ClientErrorBadRequest)
        } else if code == 0x0401 {
            Some(StatusCode::ClientErrorForbidden)
        } else if code == 0x0402 {
            Some(StatusCode::ClientErrorNotAuthenticated)
        } else if code == 0x0403 {
            Some(StatusCode::ClientErrorNotAuthorized)
        } else if code == 0x0404 {
            Some(StatusCode::ClientErrorNotPossible)
        } else if code == 0x0405 {
            Some(StatusCode::ClientErrorTimeout)
        } else if code == 0x0406 {
            Some(StatusCode::ClientErrorNotFound)
        } else if code == 0x0407 {
            Some(StatusCode::ClientErrorGone)
        } else if code == 0x0408 {
            Some(StatusCode::ClientErrorRequestEntityTooLong)
        } else if code == 0x0409 {
            Some(StatusCode::ClientErrorRequestValueTooLong)
        } else if code == 0x040A {
            Some(StatusCode::ClientErrorDocumentFormatNotSupported)
        } else if code == 0x040B {
            Some(StatusCode::ClientErrorAttributesOrValuesNotSupported)
        } else if code == 0x040C {
            Some(StatusCode::ClientErrorUriSchemeNotSupported)
        } else if code == 0x040D {
            Some(StatusCode::ClientErrorCharsetNotSupported)
        } else if code == 0x040E {
            Some(StatusCode::ClientErrorConflictingAttributes)
        } else if code == 0x040F {
            Some(StatusCode::ClientErrorCompressionNotSupported)
        } else if code == 0x0410 {
            Some(StatusCode::ClientErrorCompressionError)
        } else if code == 0x0411 {
            Some(StatusCode::ClientErrorDocumentFormatError)
        } else if code == 0x0412 {
            Some(StatusCode::ClientErrorDocumentAccessError)
        } else if code == 0x0500 {
            Some(StatusCode::ServerErrorInternalError)
        } else if code == 0x0501 {
            Some(StatusCode::ServerErrorOperationNotSupported)
        } else if code == 0x0502 {
            Some(StatusCode::ServerErrorServiceUnavailable)
        } else if code == 0x0503 {
            Some(StatusCode::ServerErrorVersionNotSupported)
        } else if code == 0x0504 {
            Some(StatusCode::ServerErrorDeviceError)
        } else if code == 0x0505 {
            Some(StatusCode::ServerErrorTemporaryError)
        } else if code == 0x0506 {
            Some(StatusCode::ServerErrorNotAcceptingJobs)
        } else if code == 0x0507 {
            Some(StatusCode::ServerErrorBusy)
        } else if code == 0x0508 {
            Some(StatusCode::ServerErrorJobCanceled)
        } else if code == 0x0509 {
            Some(StatusCode::ServerErrorMultipleDocumentJobsNotSupported)
        } else if code == 0xFFFF {
            Some(StatusCode::UnknownStatusCode)
        } else {
            None
        }
    }

    /// Whether this status reports success.
    pub fn is_success(self) -> (r: bool)
        ensures
            r == self.successful(),
    {
        self.to_u16() < 0x0100
    }

    /// The words that report this status.
    pub fn to_text(self) -> (r: String)
        ensures
            r@ == self.text(),
    {
        match status_text(self.to_u16()) {
            Some(s) => s,
            None => String::new(),
        }
    }
}

/// Every status has a number of its own.
pub proof fn lemma_status_code_round_trip(status: StatusCode)
    ensures
        StatusCode::of_code(status.code()) == Some(status),
{
}

/// The display text that the `ipp` crate gives the status with the number
/// `code`: its `StatusCode::from_u16`, then `to_string` on what that found.
/// `None` where the crate knows no status of that number. The texts are those
/// of the crate's `Display` impl, one for each status.
#[verifier::external_body]
fn status_text(code: u16) -> (r: Option<String>)
    ensures
        match StatusCode::of_code(code) {
            Some(status) => r.is_some() && r.unwrap()@ == status.text(),
            None => r.is_none(),
        },
{
    Some(ipp::model::StatusCode::from_u16(code)?.to_string())
}

} // verus!
