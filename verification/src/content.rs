//! What a successful reply carries: a media type and a body that is text or
//! bytes.

use vstd::prelude::*;
use vstd::utf8::{decode_utf8, valid_utf8};
use crate::error::GeminiError;
use crate::text::{chars_of, starts_with, string_from_utf8};

verus! {

/// A body, as text where it was decoded and as bytes where it was not.
#[derive(Debug, Clone, PartialEq, Eq)]
pub enum Body {
    String(String),
    Bytes(Vec<u8>),
}

/// A media type with the body it describes.
#[derive(Debug, Clone, PartialEq, Eq)]
pub struct Content {
    pub mime: String,
    pub body: Body,
}

/// The mathematical value of a `Body`.
pub enum BodyView {
    Text(Seq<char>),
    Binary(Seq<u8>),
}

/// The mathematical value of a `Content`.
pub struct ContentView {
    pub mime: Seq<char>,
    pub body: BodyView,
}

impl View for Body {
    type V = BodyView;

    open spec fn view(&self) -> BodyView {
        match self {
            Body::String(s) => BodyView::Text(s@),
            Body::Bytes(b) => BodyView::Binary(b@),
        }
    }
}

impl View for Content {
    type V = ContentView;

    open spec fn view(&self) -> ContentView {
        ContentView { mime: self.mime@, body: self.body@ }
    }
}

/// The prefix that marks a media type of the text family.
pub open spec fn text_family() -> Seq<char> {
    seq!['t', 'e', 'x', 't', '/']
}

/// Whether a media type belongs to the text family.
pub open spec fn is_text_mime(mime: Seq<char>) -> bool {
    text_family().is_prefix_of(mime)
}

/// The content that a media type and the bytes of a body make: text where the
/// media type is of the text family, which asks for valid UTF-8, and the bytes
/// as they are for every other media type.
pub open spec fn classified(mime: Seq<char>, bytes: Seq<u8>) -> Result<ContentView, GeminiError> {
    if !is_text_mime(mime) {
        Ok(ContentView { mime, body: BodyView::Binary(bytes) })
    } else if valid_utf8(bytes) {
        Ok(ContentView { mime, body: BodyView::Text(decode_utf8(bytes)) })
    } else {
        Err(GeminiError::EncodingError)
    }
}

/// Classification has a result for every media type and every body, and the
/// result depends on nothing else: valid UTF-8 under a media type of the text
/// family is the text it encodes, invalid UTF-8 there is an encoding error,
/// and under any other media type the bytes are kept as they are.
pub proof fn lemma_classification_cases(mime: Seq<char>, bytes: Seq<u8>)
    ensures
        is_text_mime(mime) && valid_utf8(bytes) ==> classified(mime, bytes) == Ok::<
            ContentView,
            GeminiError,
        >(ContentView { mime, body: BodyView::Text(decode_utf8(bytes)) }),
        is_text_mime(mime) && !valid_utf8(bytes) ==> classified(mime, bytes) == Err::<
            ContentView,
            GeminiError,
        >(GeminiError::EncodingError),
        !is_text_mime(mime) ==> classified(mime, bytes) == Ok::<ContentView, GeminiError>(
            ContentView { mime, body: BodyView::Binary(bytes) },
        ),
{
}

impl Content {
    /// A text body is only ever held under a media type of the text family.
    pub open spec fn wf(&self) -> bool {
        self.body is String ==> is_text_mime(self.mime@)
    }

    /// Classifies a body by its media type.
    pub fn from_mime_and_bytes(mime: String, bytes: Vec<u8>) -> (r: Result<Content, GeminiError>)
        ensures
            match r {
                Ok(c) => classified(mime@, bytes@) == Ok::<ContentView, GeminiError>(c@) && c.wf(),
                Err(e) => classified(mime@, bytes@) == Err::<ContentView, GeminiError>(e),
            },
    {
        let family = has_text_family(&mime);
        if family {
            match string_from_utf8(bytes) {
                Some(body) => Ok(Content { mime, body: Body::String(body) }),
                None => Err(GeminiError::EncodingError),
            }
        } else {
            Ok(Content { mime, body: Body::Bytes(bytes) })
        }
    }
}

/// Whether a media type belongs to the text family.
pub fn has_text_family(mime: &String) -> (b: bool)
    ensures
        b == is_text_mime(mime@),
{
    let v = chars_of(mime.as_str());
    proof {
        reveal_strlit("text/");
        assert("text/"@ =~= text_family());
    }
    starts_with(v.as_slice(), "text/")
}

} // verus!
