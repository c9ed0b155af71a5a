//! Gemtext: a document is read line by line, and each line is plain text, a
//! link or a preformatted line. A fence marks the one line it stands on; it
//! does not open a block.

use vstd::prelude::*;
use vstd::slice::slice_subrange;
use url::Url;
use crate::address::{url_joined, url_parsed};
use crate::error::GeminiError;
use crate::text::{
    chars_of, find_char, find_space, first_index, is_space, lemma_first_index_found, starts_with,
    string_of, trim, trimmed,
};

verus! {

/// One line of a document.
#[derive(Debug, Clone, PartialEq, Eq)]
pub enum GemTextLine {
    Text(String),
    Link { url: Url, text: String },
    PreFormatted(String),
}

/// The mathematical value of a line.
pub enum LineView {
    Text(Seq<char>),
    Link { url: Url, text: Seq<char> },
    PreFormatted(Seq<char>),
}

impl View for GemTextLine {
    type V = LineView;

    open spec fn view(&self) -> LineView {
        match self {
            GemTextLine::Text(t) => LineView::Text(t@),
            GemTextLine::Link { url, text } => LineView::Link { url: *url, text: text@ },
            GemTextLine::PreFormatted(t) => LineView::PreFormatted(t@),
        }
    }
}

/// The marker that a link line begins with.
pub open spec fn link_marker() -> Seq<char> {
    seq!['=', '>']
}

/// The marker that a preformatted line begins with.
pub open spec fn fence() -> Seq<char> {
    seq!['`', '`', '`']
}

/// The first line of `text`: what stands before its first line feed, or all
/// of it where it holds none.
pub open spec fn first_line(text: Seq<char>) -> Seq<char> {
    text.take(first_index(text, |c: char| c == '\n'))
}

/// What follows the first line of `text` and its line feed.
pub open spec fn after_first_line(text: Seq<char>) -> Seq<char> {
    let k = first_index(text, |c: char| c == '\n');
    if 0 <= k < text.len() {
        text.skip(k + 1)
    } else {
        Seq::empty()
    }
}

/// Whether `s` holds `://` from position `i` on.
pub open spec fn separator_at(s: Seq<char>, i: int) -> bool {
    0 <= i && i + 3 <= s.len() && s[i] == ':' && s[i + 1] == '/' && s[i + 2] == '/'
}

/// Whether `s` holds the separator `://` that follows a scheme.
pub open spec fn has_separator(s: Seq<char>) -> bool {
    exists|i: int| separator_at(s, i)
}

/// The target of a link, as written: of what follows the marker, without
/// white space at its ends, the part before the first white space.
pub open spec fn link_target(rest: Seq<char>) -> Seq<char> {
    let t = trimmed(rest);
    t.take(first_index(t, |c: char| is_space(c)))
}

/// The label of a link: what follows the white-space character that ends
/// the target, and nothing where the target ends the line.
pub open spec fn link_label(rest: Seq<char>) -> Seq<char> {
    let t = trimmed(rest);
    let k = first_index(t, |c: char| is_space(c));
    if 0 <= k < t.len() {
        t.skip(k + 1)
    } else {
        Seq::empty()
    }
}

/// The address that a target stands for: one with a scheme separator is
/// parsed on its own, any other is resolved against the base.
pub open spec fn resolved(base: Url, target: Seq<char>) -> Option<Url> {
    if has_separator(target) {
        url_parsed(target)
    } else {
        url_joined(base, target)
    }
}

/// What one line of a document is. A link whose target gives no address is
/// an error of that line.
pub open spec fn parsed_line(line: Seq<char>, base: Url) -> Result<LineView, GeminiError> {
    if link_marker().is_prefix_of(line) {
        let rest = line.skip(2);
        match resolved(base, link_target(rest)) {
            Some(url) => Ok(LineView::Link { url, text: link_label(rest) }),
            None => Err(GeminiError::AddressResolutionError),
        }
    } else if fence().is_prefix_of(line) {
        Ok(LineView::PreFormatted(line.skip(3)))
    } else {
        Ok(LineView::Text(line))
    }
}

/// The lines of a document, each as it parses. A document that ends in a
/// line feed has no empty line behind it.
pub open spec fn document_lines(text: Seq<char>, base: Url) -> Seq<Result<LineView, GeminiError>>
    decreases text.len(),
{
    if text.len() == 0 {
        Seq::empty()
    } else {
        seq![parsed_line(first_line(text), base)] + document_lines(after_first_line(text), base)
    }
}

/// The addresses of the links of a document, in the order of its lines;
/// lines that fail to parse are passed over.
pub open spec fn link_targets(text: Seq<char>, base: Url) -> Seq<Url>
    decreases text.len(),
{
    if text.len() == 0 {
        Seq::empty()
    } else {
        let rest = link_targets(after_first_line(text), base);
        match parsed_line(first_line(text), base) {
            Ok(LineView::Link { url, text }) => seq![url] + rest,
            _ => rest,
        }
    }
}

/// Whether a result is the one that a model gives.
pub open spec fn line_agrees(
    r: Result<GemTextLine, GeminiError>,
    m: Result<LineView, GeminiError>,
) -> bool {
    match r {
        Ok(x) => m == Ok::<LineView, GeminiError>(x@),
        Err(e) => m == Err::<LineView, GeminiError>(e),
    }
}

/// Whether `v` holds the separator `://`.
pub fn contains_separator(v: &[char]) -> (b: bool)
    ensures
        b == has_separator(v@),
{
    let n = v.len();
    if n < 3 {
        return false;
    }
    let mut i: usize = 0;
    while i <= n - 3
        invariant
            n == v.len(),
            n >= 3,
            forall|j: int| 0 <= j < i ==> !separator_at(v@, j),
        decreases n - i,
    {
        if v[i] == ':' && v[i + 1] == '/' && v[i + 2] == '/' {
            assert(separator_at(v@, i as int));
            return true;
        }
        i += 1;
    }
    false
}

/// Parses one line against the base address.
pub fn parse_line(line: &[char], base: &Url) -> (r: Result<GemTextLine, GeminiError>)
    ensures
        line_agrees(r, parsed_line(line@, *base)),
{
    proof {
        reveal_strlit("=>");
        reveal_strlit("```");
        assert("=>"@ =~= link_marker());
        assert("```"@ =~= fence());
    }
    if starts_with(line, "=>") {
        let rest = slice_subrange(line, 2, line.len());
        let t = trim(rest);
        proof {
            lemma_first_index_found(t@, |c: char| is_space(c));
        }
        let k = find_space(t);
        let target = slice_subrange(t, 0, k);
        let label = if k < t.len() {
            string_of(slice_subrange(t, k + 1, t.len()))
        } else {
            String::new()
        };
        let written = string_of(target);
        let found = if contains_separator(target) {
            Url::parse(written.as_str())
        } else {
            base.join(written.as_str())
        };
        match found {
            Ok(url) => Ok(GemTextLine::Link { url, text: label }),
            Err(_) => Err(GeminiError::AddressResolutionError),
        }
    } else if starts_with(line, "```") {
        Ok(GemTextLine::PreFormatted(string_of(slice_subrange(line, 3, line.len()))))
    } else {
        Ok(GemTextLine::Text(string_of(line)))
    }
}

/// A document that is being read, line by line, against a base address.
pub struct GemTextParser {
    chars: Vec<char>,
    pos: usize,
    url: Url,
}

/// The mathematical value of a parser: the text not yet read, and the base.
pub struct ParserView {
    pub remaining: Seq<char>,
    pub base: Url,
}

impl View for GemTextParser {
    type V = ParserView;

    closed spec fn view(&self) -> ParserView {
        ParserView {
            remaining: if self.pos <= self.chars@.len() {
                self.chars@.skip(self.pos as int)
            } else {
                Seq::empty()
            },
            base: self.url,
        }
    }
}

impl GemTextParser {
    /// A parser at the start of `raw_text`, with `url` as the base of the
    /// links.
    pub fn new(raw_text: &str, url: Url) -> (parser: GemTextParser)
        ensures
            parser@ == (ParserView { remaining: raw_text@, base: url }),
    {
        let parser = GemTextParser { chars: chars_of(raw_text), pos: 0, url };
        assert(parser@.remaining =~= raw_text@);
        parser
    }

    /// Reads the next line. Nothing is left to read once the text is used
    /// up; a line that fails to parse is used up like any other.
    pub fn next(&mut self) -> (r: Option<Result<GemTextLine, GeminiError>>)
        ensures
            final(self)@.base == old(self)@.base,
            old(self)@.remaining.len() == 0 ==> r is None && final(self)@ == old(self)@,
            old(self)@.remaining.len() > 0 ==> r is Some && line_agrees(
                r->0,
                parsed_line(first_line(old(self)@.remaining), old(self)@.base),
            ) && final(self)@.remaining == after_first_line(old(self)@.remaining),
    {
        let n = self.chars.len();
        if self.pos >= n {
            return None;
        }
        let rest = slice_subrange(self.chars.as_slice(), self.pos, n);
        proof {
            lemma_first_index_found(rest@, |c: char| c == '\n');
        }
        let k = find_char(rest, '\n');
        let line = parse_line(slice_subrange(rest, 0, k), &self.url);
        let next_pos: usize = if k < n - self.pos {
            self.pos + k + 1
        } else {
            n
        };
        self.pos = next_pos;
        assert(self@.remaining =~= after_first_line(old(self)@.remaining));
        Some(line)
    }

    /// The addresses of the links of `raw_text`, in the order of its lines.
    pub fn links(raw_text: &str, url: Url) -> (found: Vec<Url>)
        ensures
            found@ == link_targets(raw_text@, url),
    {
        let mut parser = GemTextParser::new(raw_text, url);
        let mut found: Vec<Url> = Vec::new();
        loop
            invariant
                parser@.base == url,
                found@ + link_targets(parser@.remaining, url) == link_targets(raw_text@, url),
            ensures
                found@ == link_targets(raw_text@, url),
            decreases parser@.remaining.len(),
        {
            let ghost before = parser@.remaining;
            proof {
                lemma_first_index_found(before, |c: char| c == '\n');
            }
            match parser.next() {
                None => {
                    assert(found@ + Seq::<Url>::empty() =~= found@);
                    break ;
                },
                Some(Ok(GemTextLine::Link { url: target, text })) => {
                    let ghost so_far = found@;
                    found.push(target);
                    assert(found@ + link_targets(parser@.remaining, url) =~= so_far
                        + link_targets(before, url));
                },
                Some(_) => {},
            }
        }
        found
    }
}

} // verus!
