//! Requests as plain values.

use vstd::prelude::*;
use vstd::string::*;

verus! {

/// A POST request: where it goes, its headers in order, and its body.
pub struct HttpRequest {
    pub url: String,
    pub headers: Vec<(String, String)>,
    pub body: String,
}

/// The names and values of headers.
pub open spec fn header_texts(headers: Seq<(String, String)>) -> Seq<(Seq<char>, Seq<char>)> {
    headers.map_values(|header: (String, String)| (header.0@, header.1@))
}

/// Whether a header of that name is among them.
pub open spec fn has_header(headers: Seq<(Seq<char>, Seq<char>)>, name: Seq<char>) -> bool {
    exists|i: int| 0 <= i < headers.len() && (#[trigger] headers[i]).0 == name
}

pub(crate) fn push_header(headers: &mut Vec<(String, String)>, name: &str, value: String)
    ensures
        header_texts(final(headers)@) == header_texts(old(headers)@).push((name@, value@)),
{
    headers.push((name.to_owned(), value));
    assert(header_texts(headers@) =~= header_texts(old(headers)@).push((name@, value@)));
}

} // verus!
