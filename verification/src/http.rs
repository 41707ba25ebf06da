//! Requests and responses as the gateway sees them: a method, a path,
//! headers in the order of the wire, and text.
//!
//! A header value holds one character for each byte of the value on the
//! wire, so a value can be handed on unchanged whatever bytes it has.

use crate::text::{chars_eq_ignore_case, eq_ignore_case, to_chars, to_text};
use vstd::prelude::*;

verus! {

/// One header line.
#[derive(Debug)]
pub struct Header {
    pub name: String,
    pub value: String,
}

impl View for Header {
    type V = (Seq<char>, Seq<char>);

    open spec fn view(&self) -> (Seq<char>, Seq<char>) {
        (self.name@, self.value@)
    }
}

/// The name and value texts of a list of headers.
pub open spec fn headers_view(headers: Seq<Header>) -> Seq<(Seq<char>, Seq<char>)> {
    headers.map_values(|h: Header| h@)
}

/// The head of an inbound request.
#[derive(Debug)]
pub struct Request {
    pub method: String,
    pub path: String,
    pub headers: Vec<Header>,
}

/// What a request is in contracts.
pub struct RequestView {
    pub method: Seq<char>,
    pub path: Seq<char>,
    pub headers: Seq<(Seq<char>, Seq<char>)>,
}

impl View for Request {
    type V = RequestView;

    open spec fn view(&self) -> RequestView {
        RequestView {
            method: self.method@,
            path: self.path@,
            headers: headers_view(self.headers@),
        }
    }
}

/// A response that the gateway writes itself.
#[derive(Debug)]
pub struct Response {
    pub status: u16,
    pub headers: Vec<Header>,
    pub body: String,
}

/// What a response is in contracts.
pub struct ResponseView {
    pub status: u16,
    pub headers: Seq<(Seq<char>, Seq<char>)>,
    pub body: Seq<char>,
}

impl View for Response {
    type V = ResponseView;

    open spec fn view(&self) -> ResponseView {
        ResponseView {
            status: self.status,
            headers: headers_view(self.headers@),
            body: self.body@,
        }
    }
}

pub const STATUS_OK: u16 = 200;

pub const STATUS_BAD_REQUEST: u16 = 400;

pub const STATUS_UNAUTHORIZED: u16 = 401;

pub const STATUS_FORBIDDEN: u16 = 403;

pub const STATUS_NOT_FOUND: u16 = 404;

pub const STATUS_METHOD_NOT_ALLOWED: u16 = 405;

pub const STATUS_INTERNAL_SERVER_ERROR: u16 = 500;

pub const STATUS_BAD_GATEWAY: u16 = 502;

pub const STATUS_SERVICE_UNAVAILABLE: u16 = 503;

/// The value of the first header called `name`, in any case of letters.
pub open spec fn find_header(headers: Seq<(Seq<char>, Seq<char>)>, name: Seq<char>) -> Option<
    Seq<char>,
>
    decreases headers.len(),
{
    if headers.len() == 0 {
        None
    } else if eq_ignore_case(headers[0].0, name) {
        Some(headers[0].1)
    } else {
        find_header(headers.skip(1), name)
    }
}

/// A character that a header value may show as text: a tab, or anything
/// from the space to the tilde.
pub open spec fn is_visible(c: char) -> bool {
    c == '\t' || (' ' <= c && c <= '~')
}

/// A value that reads as text: all its characters are visible.
pub open spec fn visible_ascii(value: Seq<char>) -> bool {
    forall|i: int| 0 <= i < value.len() ==> is_visible(#[trigger] value[i])
}

/// The text of the first header called `name`: its value where that
/// reads as text, and the empty text where the header is missing or its
/// value does not.
pub open spec fn header_text(headers: Seq<(Seq<char>, Seq<char>)>, name: Seq<char>) -> Seq<char> {
    match find_header(headers, name) {
        Some(value) => if visible_ascii(value) {
            value
        } else {
            Seq::empty()
        },
        None => Seq::empty(),
    }
}

/// Whether all characters of `value` are visible.
pub fn chars_visible(value: &Vec<char>) -> (r: bool)
    ensures
        r == visible_ascii(value@),
{
    let mut i: usize = 0;
    while i < value.len()
        invariant
            i <= value.len(),
            forall|j: int| 0 <= j < i ==> is_visible(#[trigger] value@[j]),
        decreases value.len() - i,
    {
        let c = value[i];
        if !(c == '\t' || (' ' <= c && c <= '~')) {
            return false;
        }
        i += 1;
    }
    true
}

/// The position of the first header called `name`.
pub fn header_position(headers: &Vec<Header>, name: &str) -> (found: Option<usize>)
    ensures
        match found {
            Some(i) => i < headers.len() && find_header(headers_view(headers@), name@) == Some(
                headers@[i as int].value@,
            ),
            None => find_header(headers_view(headers@), name@) is None,
        },
{
    let wanted = to_chars(name);
    let ghost all = headers_view(headers@);
    let mut i: usize = 0;
    assert(all.skip(0) =~= all);
    while i < headers.len()
        invariant
            i <= headers.len(),
            wanted@ == name@,
            all == headers_view(headers@),
            find_header(all, name@) == find_header(all.skip(i as int), name@),
        decreases headers.len() - i,
    {
        let have = to_chars(headers[i].name.as_str());
        if chars_eq_ignore_case(&have, &wanted) {
            return Some(i);
        }
        assert(all.skip(i as int).skip(1) =~= all.skip(i + 1));
        i += 1;
    }
    None
}

/// The text of the first header called `name`, empty where there is
/// none that reads as text.
pub fn read_header(headers: &Vec<Header>, name: &str) -> (text: String)
    ensures
        text@ == header_text(headers_view(headers@), name@),
{
    match header_position(headers, name) {
        Some(i) => {
            let value = to_chars(headers[i].value.as_str());
            if chars_visible(&value) {
                let text = to_text(&value, 0, value.len());
                text
            } else {
                String::new()
            }
        },
        None => String::new(),
    }
}

/// Appends the header `name: value` to `headers`.
pub fn push_header(headers: &mut Vec<Header>, name: &str, value: &str)
    ensures
        headers_view(final(headers)@) == headers_view(old(headers)@).push((name@, value@)),
{
    let header = Header { name: name.to_owned(), value: value.to_owned() };
    headers.push(header);
}

/// A copy of `header`.
pub fn copy_header(header: &Header) -> (copy: Header)
    ensures
        copy@ == header@,
{
    Header { name: header.name.clone(), value: header.value.clone() }
}

} // verus!
