//! The two-digit status codes of a reply, and the table that gives each its
//! meaning.

use vstd::prelude::*;
use crate::error::GeminiError;

verus! {

/// The server asks for a line of input.
#[derive(Debug, Clone, Copy, PartialEq, Eq, Structural)]
pub enum InputStatus {
    Normal,
    Sensitive,
}

/// The resource is found at another address.
#[derive(Debug, Clone, Copy, PartialEq, Eq, Structural)]
pub enum RedirectStatus {
    Temporary,
    Permanent,
}

/// The request failed, and may succeed if made again.
#[derive(Debug, Clone, Copy, PartialEq, Eq, Structural)]
pub enum TemporaryFailureStatus {
    Unspecified,
    ServerUnavailable,
    CGIError,
    ProxyError,
    SlowDown,
}

/// The request failed, and will fail if made again.
#[derive(Debug, Clone, Copy, PartialEq, Eq, Structural)]
pub enum PermanentFailureStatus {
    Unspecified,
    NotFound,
    Gone,
    ProxyRequestRefused,
    BadRequest,
}

/// The server wants a client certificate, or refuses the one it got.
#[derive(Debug, Clone, Copy, PartialEq, Eq, Structural)]
pub enum ClientCertificateErrorStatus {
    Required,
    NotAuthorized,
    NotValid,
}

/// What a status code means.
#[derive(Debug, Clone, Copy, PartialEq, Eq, Structural)]
pub enum StatusCode {
    Input(InputStatus),
    Success,
    Redirect(RedirectStatus),
    TemporaryFailure(TemporaryFailureStatus),
    PermanentFailure(PermanentFailureStatus),
    ClientCertificateError(ClientCertificateErrorStatus),
}

/// The table of status codes: the meaning of the code with the digits `tens`
/// and `units`, given as ASCII characters. A pair that is not listed has none.
pub open spec fn status_of(tens: u8, units: u8) -> Option<StatusCode> {
    if tens == 0x31 && units == 0x30 {
        Some(StatusCode::Input(InputStatus::Normal))
    } else if tens == 0x31 && units == 0x31 {
        Some(StatusCode::Input(InputStatus::Sensitive))
    } else if tens == 0x32 && units == 0x30 {
        Some(StatusCode::Success)
    } else if tens == 0x33 && units == 0x30 {
        Some(StatusCode::Redirect(RedirectStatus::Temporary))
    } else if tens == 0x33 && units == 0x31 {
        Some(StatusCode::Redirect(RedirectStatus::Permanent))
    } else if tens == 0x34 && units == 0x30 {
        Some(StatusCode::TemporaryFailure(TemporaryFailureStatus::Unspecified))
    } else if tens == 0x34 && units == 0x31 {
        Some(StatusCode::TemporaryFailure(TemporaryFailureStatus::ServerUnavailable))
    } else if tens == 0x34 && units == 0x32 {
        Some(StatusCode::TemporaryFailure(TemporaryFailureStatus::CGIError))
    } else if tens == 0x34 && units == 0x33 {
        Some(StatusCode::TemporaryFailure(TemporaryFailureStatus::ProxyError))
    } else if tens == 0x34 && units == 0x34 {
        Some(StatusCode::TemporaryFailure(TemporaryFailureStatus::SlowDown))
    } else if tens == 0x35 && units == 0x30 {
        Some(StatusCode::PermanentFailure(PermanentFailureStatus::Unspecified))
    } else if tens == 0x35 && units == 0x31 {
        Some(StatusCode::PermanentFailure(PermanentFailureStatus::NotFound))
    } else if tens == 0x35 && units == 0x32 {
        Some(StatusCode::PermanentFailure(PermanentFailureStatus::Gone))
    } else if tens == 0x35 && units == 0x33 {
        Some(StatusCode::PermanentFailure(PermanentFailureStatus::ProxyRequestRefused))
    } else if tens == 0x35 && units == 0x39 {
        Some(StatusCode::PermanentFailure(PermanentFailureStatus::BadRequest))
    } else if tens == 0x36 && units == 0x30 {
        Some(StatusCode::ClientCertificateError(ClientCertificateErrorStatus::Required))
    } else if tens == 0x36 && units == 0x31 {
        Some(StatusCode::ClientCertificateError(ClientCertificateErrorStatus::NotAuthorized))
    } else if tens == 0x36 && units == 0x32 {
        Some(StatusCode::ClientCertificateError(ClientCertificateErrorStatus::NotValid))
    } else {
        None
    }
}

/// The meaning of the code that `value` begins with, if its first two bytes
/// are a listed code.
pub open spec fn leading_status(value: Seq<u8>) -> Option<StatusCode> {
    if value.len() >= 2 {
        status_of(value[0], value[1])
    } else {
        None
    }
}

/// The meaning of a status token: a listed code and one space behind it.
pub open spec fn token_status(token: Seq<u8>) -> Option<StatusCode> {
    if token.len() == 3 && token[2] == 0x20 {
        status_of(token[0], token[1])
    } else {
        None
    }
}

/// The category of a code is its first digit.
pub proof fn lemma_category_is_leading_digit(tens: u8, units: u8)
    ensures
        status_of(tens, units) matches Some(StatusCode::Input(_)) ==> tens == 0x31,
        status_of(tens, units) matches Some(StatusCode::Success) ==> tens == 0x32,
        status_of(tens, units) matches Some(StatusCode::Redirect(_)) ==> tens == 0x33,
        status_of(tens, units) matches Some(StatusCode::TemporaryFailure(_)) ==> tens == 0x34,
        status_of(tens, units) matches Some(StatusCode::PermanentFailure(_)) ==> tens == 0x35,
        status_of(tens, units) matches Some(StatusCode::ClientCertificateError(_)) ==> tens
            == 0x36,
{
}

/// Looks a code up in the table.
pub fn lookup(tens: u8, units: u8) -> (r: Option<StatusCode>)
    ensures
        r == status_of(tens, units),
{
    match (tens, units) {
        (0x31, 0x30) => Some(StatusCode::Input(InputStatus::Normal)),
        (0x31, 0x31) => Some(StatusCode::Input(InputStatus::Sensitive)),
        (0x32, 0x30) => Some(StatusCode::Success),
        (0x33, 0x30) => Some(StatusCode::Redirect(RedirectStatus::Temporary)),
        (0x33, 0x31) => Some(StatusCode::Redirect(RedirectStatus::Permanent)),
        (0x34, 0x30) => Some(StatusCode::TemporaryFailure(TemporaryFailureStatus::Unspecified)),
        (0x34, 0x31) => Some(
            StatusCode::TemporaryFailure(TemporaryFailureStatus::ServerUnavailable),
        ),
        (0x34, 0x32) => Some(StatusCode::TemporaryFailure(TemporaryFailureStatus::CGIError)),
        (0x34, 0x33) => Some(StatusCode::TemporaryFailure(TemporaryFailureStatus::ProxyError)),
        (0x34, 0x34) => Some(StatusCode::TemporaryFailure(TemporaryFailureStatus::SlowDown)),
        (0x35, 0x30) => Some(StatusCode::PermanentFailure(PermanentFailureStatus::Unspecified)),
        (0x35, 0x31) => Some(StatusCode::PermanentFailure(PermanentFailureStatus::NotFound)),
        (0x35, 0x32) => Some(StatusCode::PermanentFailure(PermanentFailureStatus::Gone)),
        (0x35, 0x33) => Some(
            StatusCode::PermanentFailure(PermanentFailureStatus::ProxyRequestRefused),
        ),
        (0x35, 0x39) => Some(StatusCode::PermanentFailure(PermanentFailureStatus::BadRequest)),
        (0x36, 0x30) => Some(
            StatusCode::ClientCertificateError(ClientCertificateErrorStatus::Required),
        ),
        (0x36, 0x31) => Some(
            StatusCode::ClientCertificateError(ClientCertificateErrorStatus::NotAuthorized),
        ),
        (0x36, 0x32) => Some(
            StatusCode::ClientCertificateError(ClientCertificateErrorStatus::NotValid),
        ),
        _ => None,
    }
}

/// The meaning of the code that `value` begins with.
pub fn leading(value: &[u8]) -> (r: Option<StatusCode>)
    ensures
        r == leading_status(value@),
{
    if value.len() >= 2 {
        lookup(value[0], value[1])
    } else {
        None
    }
}

/// The meaning of a status token.
pub fn of_token(token: &[u8]) -> (r: Option<StatusCode>)
    ensures
        r == token_status(token@),
{
    if token.len() == 3 && token[2] == 0x20 {
        lookup(token[0], token[1])
    } else {
        None
    }
}

impl InputStatus {
    /// The input status that `value` begins with.
    pub open spec fn parsed(value: Seq<u8>) -> Result<InputStatus, GeminiError> {
        match leading_status(value) {
            Some(StatusCode::Input(s)) => Ok(s),
            _ => Err(GeminiError::ProtocolError),
        }
    }

    /// Reads an input status from the two digits that `value` begins with.
    pub fn try_from(value: &[u8]) -> (r: Result<InputStatus, GeminiError>)
        ensures
            r == Self::parsed(value@),
    {
        match leading(value) {
            Some(StatusCode::Input(s)) => Ok(s),
            _ => Err(GeminiError::ProtocolError),
        }
    }
}

impl RedirectStatus {
    /// The redirect status that `value` begins with.
    pub open spec fn parsed(value: Seq<u8>) -> Result<RedirectStatus, GeminiError> {
        match leading_status(value) {
            Some(StatusCode::Redirect(s)) => Ok(s),
            _ => Err(GeminiError::ProtocolError),
        }
    }

    /// Reads a redirect status from the two digits that `value` begins with.
    pub fn try_from(value: &[u8]) -> (r: Result<RedirectStatus, GeminiError>)
        ensures
            r == Self::parsed(value@),
    {
        match leading(value) {
            Some(StatusCode::Redirect(s)) => Ok(s),
            _ => Err(GeminiError::ProtocolError),
        }
    }
}

impl TemporaryFailureStatus {
    /// The temporary-failure status that `value` begins with.
    pub open spec fn parsed(value: Seq<u8>) -> Result<TemporaryFailureStatus, GeminiError> {
        match leading_status(value) {
            Some(StatusCode::TemporaryFailure(s)) => Ok(s),
            _ => Err(GeminiError::ProtocolError),
        }
    }

    /// Reads a temporary-failure status from the two digits that `value`
    /// begins with.
    pub fn try_from(value: &[u8]) -> (r: Result<TemporaryFailureStatus, GeminiError>)
        ensures
            r == Self::parsed(value@),
    {
        match leading(value) {
            Some(StatusCode::TemporaryFailure(s)) => Ok(s),
            _ => Err(GeminiError::ProtocolError),
        }
    }
}

impl PermanentFailureStatus {
    /// The permanent-failure status that `value` begins with.
    pub open spec fn parsed(value: Seq<u8>) -> Result<PermanentFailureStatus, GeminiError> {
        match leading_status(value) {
            Some(StatusCode::PermanentFailure(s)) => Ok(s),
            _ => Err(GeminiError::ProtocolError),
        }
    }

    /// Reads a permanent-failure status from the two digits that `value`
    /// begins with.
    pub fn try_from(value: &[u8]) -> (r: Result<PermanentFailureStatus, GeminiError>)
        ensures
            r == Self::parsed(value@),
    {
        match leading(value) {
            Some(StatusCode::PermanentFailure(s)) => Ok(s),
            _ => Err(GeminiError::ProtocolError),
        }
    }
}

impl ClientCertificateErrorStatus {
    /// The certificate status that `value` begins with.
    pub open spec fn parsed(value: Seq<u8>) -> Result<ClientCertificateErrorStatus, GeminiError> {
        match leading_status(value) {
            Some(StatusCode::ClientCertificateError(s)) => Ok(s),
            _ => Err(GeminiError::ProtocolError),
        }
    }

    /// Reads a certificate status from the two digits that `value` begins
    /// with.
    pub fn try_from(value: &[u8]) -> (r: Result<ClientCertificateErrorStatus, GeminiError>)
        ensures
            r == Self::parsed(value@),
    {
        match leading(value) {
            Some(StatusCode::ClientCertificateError(s)) => Ok(s),
            _ => Err(GeminiError::ProtocolError),
        }
    }
}

} // verus!
