//! Replies: the tagged value that a status token and the bytes behind it
//! stand for.

use vstd::prelude::*;
use vstd::utf8::valid_utf8;
use url::Url;
use crate::address::url_parsed;
use crate::error::GeminiError;
use crate::status::{
    of_token, token_status, ClientCertificateErrorStatus, InputStatus, PermanentFailureStatus,
    RedirectStatus, StatusCode, TemporaryFailureStatus,
};
use crate::text::{decode_trimmed, find_byte, first_index, trimmed_text};

verus! {

/// Bytes of a reply that are read behind the status token; what follows them
/// is never looked at.
pub const BODY_CAP: usize = 8_388_608;

/// The length of a status token: two digits and a space.
pub const TOKEN_LEN: usize = 3;

/// A reply, by category.
#[allow(inconsistent_fields)]
#[derive(Debug, Clone, PartialEq, Eq)]
pub enum GeminiResponse {
    Input { status: InputStatus, prompt: String },
    Success { mime: String, body: Vec<u8> },
    Redirect { status: RedirectStatus, url: Url },
    TemporaryFailure { status: TemporaryFailureStatus, error_msg: Option<String> },
    PermanentFailure { status: PermanentFailureStatus, error_msg: Option<String> },
    ClientCertificateError { status: ClientCertificateErrorStatus, error_msg: Option<String> },
}

/// The mathematical value of a reply.
#[allow(inconsistent_fields)]
pub enum ResponseView {
    Input { status: InputStatus, prompt: Seq<char> },
    Success { mime: Seq<char>, body: Seq<u8> },
    Redirect { status: RedirectStatus, url: Url },
    TemporaryFailure { status: TemporaryFailureStatus, error_msg: Option<Seq<char>> },
    PermanentFailure { status: PermanentFailureStatus, error_msg: Option<Seq<char>> },
    ClientCertificateError {
        status: ClientCertificateErrorStatus,
        error_msg: Option<Seq<char>>,
    },
}

/// The mathematical value of an optional text.
pub open spec fn text_view(t: Option<String>) -> Option<Seq<char>> {
    match t {
        Some(s) => Some(s@),
        None => None,
    }
}

impl View for GeminiResponse {
    type V = ResponseView;

    open spec fn view(&self) -> ResponseView {
        match self {
            GeminiResponse::Input { status, prompt } => ResponseView::Input {
                status: *status,
                prompt: prompt@,
            },
            GeminiResponse::Success { mime, body } => ResponseView::Success {
                mime: mime@,
                body: body@,
            },
            GeminiResponse::Redirect { status, url } => ResponseView::Redirect {
                status: *status,
                url: *url,
            },
            GeminiResponse::TemporaryFailure { status, error_msg } => {
                ResponseView::TemporaryFailure { status: *status, error_msg: text_view(*error_msg) }
            },
            GeminiResponse::PermanentFailure { status, error_msg } => {
                ResponseView::PermanentFailure { status: *status, error_msg: text_view(*error_msg) }
            },
            GeminiResponse::ClientCertificateError { status, error_msg } => {
                ResponseView::ClientCertificateError {
                    status: *status,
                    error_msg: text_view(*error_msg),
                }
            },
        }
    }
}

/// The length of the header line that `rest` begins with: up to the first
/// line feed and with it, or all of `rest` where it holds none.
pub open spec fn header_len(rest: Seq<u8>) -> int {
    let k = first_index(rest, |b: u8| b == 0x0a);
    if k < rest.len() {
        k + 1
    } else {
        k
    }
}

/// A message, or none where the text is empty.
pub open spec fn message_of(t: Seq<char>) -> Option<Seq<char>> {
    if t.len() == 0 {
        None
    } else {
        Some(t)
    }
}

/// What a reply of the given category with the bytes `rest` behind its token
/// is. A success keeps its body as bytes: only the header line has to be
/// text. Every other category has to be text as a whole.
pub open spec fn reply_with(code: StatusCode, rest: Seq<u8>) -> Result<ResponseView, GeminiError> {
    match code {
        StatusCode::Success => {
            let cut = header_len(rest);
            match trimmed_text(rest.take(cut)) {
                Some(mime) => Ok(ResponseView::Success { mime, body: rest.skip(cut) }),
                None => Err(GeminiError::EncodingError),
            }
        },
        _ => match trimmed_text(rest) {
            None => Err(GeminiError::EncodingError),
            Some(t) => match code {
                StatusCode::Input(status) => Ok(ResponseView::Input { status, prompt: t }),
                StatusCode::Redirect(status) => match url_parsed(t) {
                    Some(url) => Ok(ResponseView::Redirect { status, url }),
                    None => Err(GeminiError::AddressResolutionError),
                },
                StatusCode::TemporaryFailure(status) => Ok(
                    ResponseView::TemporaryFailure { status, error_msg: message_of(t) },
                ),
                StatusCode::PermanentFailure(status) => Ok(
                    ResponseView::PermanentFailure { status, error_msg: message_of(t) },
                ),
                StatusCode::ClientCertificateError(status) => Ok(
                    ResponseView::ClientCertificateError { status, error_msg: message_of(t) },
                ),
                StatusCode::Success => Err(GeminiError::ProtocolError),
            },
        },
    }
}

/// What the status token `token` and the bytes `rest` behind it stand for: a
/// token that the table does not list is a protocol error.
pub open spec fn reply_of(token: Seq<u8>, rest: Seq<u8>) -> Result<ResponseView, GeminiError> {
    match token_status(token) {
        Some(code) => reply_with(code, rest),
        None => Err(GeminiError::ProtocolError),
    }
}

/// The status token of a whole reply: its first three bytes.
pub open spec fn reply_token(reply: Seq<u8>) -> Seq<u8> {
    if reply.len() <= TOKEN_LEN {
        reply
    } else {
        reply.take(TOKEN_LEN as int)
    }
}

/// What is read of a whole reply behind its token: at most `BODY_CAP` bytes.
pub open spec fn reply_rest(reply: Seq<u8>) -> Seq<u8> {
    if reply.len() <= TOKEN_LEN {
        Seq::empty()
    } else if reply.len() <= TOKEN_LEN + BODY_CAP {
        reply.skip(TOKEN_LEN as int)
    } else {
        reply.subrange(TOKEN_LEN as int, TOKEN_LEN + BODY_CAP)
    }
}

/// A reply is of the category that the first digit of its code names, and a
/// token that the table does not list gives no reply at all.
pub proof fn lemma_category_follows_first_digit(token: Seq<u8>, rest: Seq<u8>)
    ensures
        token_status(token) is None ==> reply_of(token, rest) == Err::<ResponseView, GeminiError>(
            GeminiError::ProtocolError,
        ),
        reply_of(token, rest) is Ok ==> token.len() == 3 && token[2] == 0x20,
        reply_of(token, rest) matches Ok(ResponseView::Input { .. }) ==> token[0] == 0x31,
        reply_of(token, rest) matches Ok(ResponseView::Success { .. }) ==> token[0] == 0x32,
        reply_of(token, rest) matches Ok(ResponseView::Redirect { .. }) ==> token[0] == 0x33,
        reply_of(token, rest) matches Ok(ResponseView::TemporaryFailure { .. }) ==> token[0]
            == 0x34,
        reply_of(token, rest) matches Ok(ResponseView::PermanentFailure { .. }) ==> token[0]
            == 0x35,
        reply_of(token, rest) matches Ok(ResponseView::ClientCertificateError { .. }) ==> token[0]
            == 0x36,
{
}

/// A reply that begins with the code 99 is a protocol error, whatever
/// follows the code.
pub proof fn lemma_code_99_is_no_reply(reply: Seq<u8>)
    requires
        reply.len() >= 3,
        reply[0] == 0x39,
        reply[1] == 0x39,
        reply[2] == 0x20,
    ensures
        reply_of(reply_token(reply), reply_rest(reply)) == Err::<ResponseView, GeminiError>(
            GeminiError::ProtocolError,
        ),
{
}

/// The reply with the code 51 and nothing behind it is a permanent failure,
/// not found, without a message.
pub proof fn lemma_bare_not_found()
    ensures
        reply_of(seq![0x35u8, 0x31u8, 0x20u8], Seq::empty()) == Ok::<ResponseView, GeminiError>(
            ResponseView::PermanentFailure {
                status: PermanentFailureStatus::NotFound,
                error_msg: None,
            },
        ),
{
    let none = Seq::<u8>::empty();
    assert(valid_utf8(none));
    assert(vstd::utf8::decode_utf8(none) =~= Seq::<char>::empty());
    assert(crate::text::trimmed(Seq::<char>::empty()) =~= Seq::<char>::empty());
}

/// Whether a result is the one that a model gives.
pub open spec fn agrees(
    r: Result<GeminiResponse, GeminiError>,
    m: Result<ResponseView, GeminiError>,
) -> bool {
    match r {
        Ok(x) => m == Ok::<ResponseView, GeminiError>(x@),
        Err(e) => m == Err::<ResponseView, GeminiError>(e),
    }
}

/// A message, or none where the text is empty.
fn message(t: String) -> (m: Option<String>)
    ensures
        text_view(m) == message_of(t@),
{
    if t.as_str().is_empty() {
        None
    } else {
        Some(t)
    }
}

/// The length of the header line that `rest` begins with.
pub fn header_length(rest: &[u8]) -> (cut: usize)
    ensures
        cut == header_len(rest@),
        cut <= rest.len(),
{
    proof {
        crate::text::lemma_first_index_found(rest@, |b: u8| b == 0x0a);
    }
    let k = find_byte(rest, 0x0a);
    if k < rest.len() {
        k + 1
    } else {
        k
    }
}

impl GeminiResponse {
    /// Builds the reply of the given category from the bytes behind the
    /// status token.
    pub fn with_status(code: StatusCode, rest: Vec<u8>) -> (r: Result<GeminiResponse, GeminiError>)
        ensures
            agrees(r, reply_with(code, rest@)),
    {
        if let StatusCode::Success = code {
            let cut = header_length(rest.as_slice());
            let mut header = rest;
            let body = header.split_off(cut);
            assert(header@ =~= rest@.take(cut as int));
            assert(body@ =~= rest@.skip(cut as int));
            return match decode_trimmed(header) {
                Some(mime) => Ok(GeminiResponse::Success { mime, body }),
                None => Err(GeminiError::EncodingError),
            };
        }
        let text = match decode_trimmed(rest) {
            Some(text) => text,
            None => {
                return Err(GeminiError::EncodingError);
            },
        };
        match code {
            StatusCode::Input(status) => Ok(GeminiResponse::Input { status, prompt: text }),
            StatusCode::Redirect(status) => match Url::parse(text.as_str()) {
                Ok(url) => Ok(GeminiResponse::Redirect { status, url }),
                Err(_) => Err(GeminiError::AddressResolutionError),
            },
            StatusCode::TemporaryFailure(status) => Ok(
                GeminiResponse::TemporaryFailure { status, error_msg: message(text) },
            ),
            StatusCode::PermanentFailure(status) => Ok(
                GeminiResponse::PermanentFailure { status, error_msg: message(text) },
            ),
            StatusCode::ClientCertificateError(status) => Ok(
                GeminiResponse::ClientCertificateError { status, error_msg: message(text) },
            ),
            StatusCode::Success => Err(GeminiError::ProtocolError),
        }
    }

    /// Classifies a reply that was read as a status token and the bytes
    /// behind it.
    pub fn classify(token: &[u8], rest: Vec<u8>) -> (r: Result<GeminiResponse, GeminiError>)
        ensures
            agrees(r, reply_of(token@, rest@)),
    {
        match of_token(token) {
            Some(code) => Self::with_status(code, rest),
            None => Err(GeminiError::ProtocolError),
        }
    }

    /// Classifies a whole reply: the first three bytes are the status token,
    /// and of what follows no more than `BODY_CAP` bytes are looked at.
    pub fn from_reply(reply: &[u8]) -> (r: Result<GeminiResponse, GeminiError>)
        ensures
            agrees(r, reply_of(reply_token(reply@), reply_rest(reply@))),
    {
        let n = reply.len();
        if n <= TOKEN_LEN {
            let r = Self::classify(reply, Vec::new());
            assert(Seq::<u8>::empty() =~= reply_rest(reply@));
            r
        } else {
            let token = vstd::slice::slice_subrange(reply, 0, TOKEN_LEN);
            let end: usize = if n - TOKEN_LEN <= BODY_CAP {
                n
            } else {
                TOKEN_LEN + BODY_CAP
            };
            let rest = vstd::slice::slice_to_vec(vstd::slice::slice_subrange(reply, TOKEN_LEN, end));
            assert(token@ =~= reply_token(reply@));
            assert(rest@ =~= reply_rest(reply@));
            Self::classify(token, rest)
        }
    }
}

} // verus!
