//! The core of a small Gemini browser.
//!
//! The library holds what the browser decides and computes, and leaves the
//! network and the terminal to its caller:
//!
//! - `address`: what the `url` crate reports of an address, taken on trust;
//! - `text`: searching, trimming and reading numbers in sequences of
//!   characters;
//! - `status` and `response`: the table of status codes, and the reply that a
//!   status token and the bytes behind it stand for;
//! - `client`: the request for an address, and the steps of an exchange that
//!   follows redirects up to a limit;
//! - `content`: a body as text or as bytes, by its media type;
//! - `gemtext`: a document, line by line;
//! - `history`: the addresses visited, with a cursor;
//! - `page`: what is shown of a page, with its links numbered;
//! - `session`: what each command and each reply does to the session.

pub mod address;
pub mod client;
pub mod content;
pub mod error;
pub mod gemtext;
pub mod history;
pub mod page;
pub mod response;
pub mod session;
pub mod status;
pub mod text;
