//! Addresses are values of `url::Url`. Such a value is carried as an
//! opaque token; what the `url` crate reports of it is given a name here, and
//! every fact about those names in this file is taken on trust from that crate.

use vstd::prelude::*;
use vstd::utf8::encode_utf8;
use url::{ParseError, Url};
use crate::text::first_index;

verus! {

/// The address type of the `url` crate, carried through the library unopened.
#[verifier::external_type_specification]
#[verifier::external_body]
pub struct ExUrl(Url);

/// The error that `url` gives when a text is no address.
#[verifier::external_type_specification]
#[verifier::external_body]
pub struct ExParseError(ParseError);

/// The serialization of an address: what `Url::as_str` returns.
pub uninterp spec fn url_text(u: Url) -> Seq<char>;

/// The scheme of an address: what stands before the first colon of its
/// serialization.
pub open spec fn url_scheme(u: Url) -> Seq<char> {
    url_text(u).take(first_index(url_text(u), |c: char| c == ':'))
}

/// The host of an address, where it has one: what `Url::host_str` returns.
pub uninterp spec fn url_host(u: Url) -> Option<Seq<char>>;

/// The port that an address names, where it names one: what `Url::port`
/// returns.
pub uninterp spec fn url_port(u: Url) -> Option<u16>;

/// The path of an address: what `Url::path` returns.
pub uninterp spec fn url_path(u: Url) -> Seq<char>;

/// The address that `Url::parse` makes of a text, if it makes one.
pub uninterp spec fn url_parsed(text: Seq<char>) -> Option<Url>;

/// The address that `Url::join` makes of a reference against a base, if it
/// makes one.
pub uninterp spec fn url_joined(base: Url, reference: Seq<char>) -> Option<Url>;

/// The address that `Url::set_path` leaves for an address and a path.
pub uninterp spec fn url_with_path(u: Url, path: Seq<char>) -> Url;

/// The address that `Url::set_query` leaves for an address and a query.
pub uninterp spec fn url_with_query(u: Url, query: Option<Seq<char>>) -> Url;

/// The length of an address's serialization, in bytes.
pub open spec fn url_bytes(u: Url) -> nat {
    encode_utf8(url_text(u)).len()
}

/// Whether an address can take a new part of `bytes` bytes: `url` keeps
/// positions within a serialization in 32 bits, and a part is written with at
/// most three bytes for each of its own and a few around them.
pub open spec fn has_room(u: Url, bytes: nat) -> bool {
    url_bytes(u) + 3 * bytes + 4 <= u32::MAX
}

/// `Url::as_str` returns the serialization, named `url_text` here.
pub assume_specification<'a>[ Url::as_str ](u: &'a Url) -> (r: &'a str)
    ensures
        r@ == url_text(*u),
;

/// `Url::scheme` returns the part of the serialization that stands before
/// its first colon: a serialization begins with the scheme, which holds no
/// colon, and a colon follows it.
pub assume_specification<'a>[ Url::scheme ](u: &'a Url) -> (r: &'a str)
    ensures
        r@ == url_scheme(*u),
;

/// `Url::host_str` returns the host as text where the address has one, named
/// `url_host` here.
pub assume_specification<'a>[ Url::host_str ](u: &'a Url) -> (r: Option<&'a str>)
    ensures
        match r {
            Some(h) => url_host(*u) == Some(h@),
            None => url_host(*u) is None,
        },
;

/// `Url::port` returns the port where the address names one, named
/// `url_port` here.
pub assume_specification[ Url::port ](u: &Url) -> (r: Option<u16>)
    ensures
        r == url_port(*u),
;

/// `Url::path` returns the path, named `url_path` here.
pub assume_specification<'a>[ Url::path ](u: &'a Url) -> (r: &'a str)
    ensures
        r@ == url_path(*u),
;

/// `Url::parse` depends on its input alone: it returns the address named
/// `url_parsed`, or an error where there is none.
pub assume_specification[ Url::parse ](input: &str) -> (r: Result<Url, ParseError>)
    ensures
        match r {
            Ok(u) => url_parsed(input@) == Some(u),
            Err(_) => url_parsed(input@) is None,
        },
;

/// `Url::join` depends on the base and the reference alone: it returns the
/// address named `url_joined`, or an error where there is none.
pub assume_specification[ Url::join ](base: &Url, input: &str) -> (r: Result<Url, ParseError>)
    ensures
        match r {
            Ok(u) => url_joined(*base, input@) == Some(u),
            Err(_) => url_joined(*base, input@) is None,
        },
;

/// `Url::set_path` replaces the path; the address it leaves is named
/// `url_with_path` here. This is stated for the path `/` alone, the one path
/// that this library sets. The call stops the program where the
/// serialization would outgrow 32 bits, which the precondition excludes.
pub assume_specification[ Url::set_path ](u: &mut Url, path: &str)
    requires
        path@ == seq!['/'],
        has_room(*old(u), 1),
    ensures
        *final(u) == url_with_path(*old(u), path@),
;

/// `Url::set_query` replaces the query, or removes it; the address it leaves
/// is named `url_with_query` here. It stops the program where the
/// serialization would outgrow 32 bits, which the precondition excludes.
pub assume_specification[ Url::set_query ](u: &mut Url, query: Option<&str>)
    requires
        query matches Some(q) ==> has_room(*old(u), encode_utf8(q@).len()),
    ensures
        *final(u) == url_with_query(
            *old(u),
            match query {
                Some(q) => Some(q@),
                None => None,
            },
        ),
;

/// The `Clone` that `url` derives for `Url` copies every field.
pub assume_specification[ <Url as Clone>::clone ](u: &Url) -> (r: Url)
    ensures
        r == *u,
;

/// Whether `u` can take a new part of `bytes` bytes.
pub fn room_for_bytes(u: &Url, bytes: usize) -> (b: bool)
    ensures
        b == has_room(*u, bytes as nat),
{
    let have: usize = u.as_str().as_bytes().len();
    let limit: usize = 0xffff_fffb;
    bytes <= limit / 3 && have <= limit - 3 * bytes
}

/// Whether `u` can take a new part with the bytes of `part`.
pub fn room_for(u: &Url, part: &str) -> (b: bool)
    ensures
        b == has_room(*u, encode_utf8(part@).len()),
{
    room_for_bytes(u, part.as_bytes().len())
}

} // verus!
