//! The steps of a create and of a resolve request. Between the steps the
//! caller talks to the store.

use crate::code::{generate_short_code, is_short_code};
use crate::error::{Error, ErrorView};
use crate::json::{encode_string, json_string_literal, object_string, read_object_string};
use crate::long_url::{full_url, normalized_url};
use crate::path::{last_segment, last_segment_of};
use crate::response::{ok_json, result_view, Response, ResponseView};
use vstd::prelude::*;

verus! {

/// A short code and the URL that it stands for.
#[derive(Debug)]
pub struct Mapping {
    pub code: String,
    pub url: String,
}

/// A [`Mapping`] with its texts as sequences of characters.
pub struct MappingView {
    pub code: Seq<char>,
    pub url: Seq<char>,
}

impl View for Mapping {
    type V = MappingView;

    open spec fn view(&self) -> MappingView {
        MappingView { code: self.code@, url: self.url@ }
    }
}

/// The text of a request body, where there is one.
pub open spec fn body_text(body: Option<&str>) -> Option<Seq<char>> {
    match body {
        Some(text) => Some(text@),
        None => None,
    }
}

/// The text of a stored value, where there is one.
pub open spec fn stored_text(fetched: Option<String>) -> Option<Seq<char>> {
    match fetched {
        Some(stored) => Some(stored@),
        None => None,
    }
}

/// The URL that a create request asks to shorten: the string under `url` in the
/// JSON object of its body. A request without a body, with a body that is not
/// one JSON object, or without a string there asks for none.
pub open spec fn requested_url(body: Option<Seq<char>>) -> Option<Seq<char>> {
    match body {
        Some(text) => object_string(text, "url"@),
        None => None,
    }
}

/// The address under which `code` is served for requests that come in by
/// `scheme` on `host`: scheme and host, then two slashes and the code.
pub open spec fn short_url(scheme: Seq<char>, host: Seq<char>, code: Seq<char>) -> Seq<char> {
    scheme + "://"@ + host + "//"@ + code
}

/// The body that answers a create request.
pub open spec fn short_url_json(short_url: Seq<char>) -> Seq<char> {
    "{\"short_url\":"@ + json_string_literal(short_url) + "}"@
}

/// The body that answers a resolve request.
pub open spec fn full_url_json(full_url: Seq<char>) -> Seq<char> {
    "{\"full_url\":"@ + json_string_literal(full_url) + "}"@
}

/// Whether `plan` is a first step of the create request with this body: the
/// requested URL under some short code, or the refusal of a request that asks
/// for no URL.
pub open spec fn create_plan(body: Option<Seq<char>>, plan: Result<MappingView, ErrorView>) -> bool {
    match requested_url(body) {
        Some(url) => plan matches Ok(mapping) && mapping.url == url && is_short_code(mapping.code),
        None => plan == Err::<MappingView, ErrorView>(
            ErrorView::InvalidRequest("Invalid JSON in the request"@),
        ),
    }
}

/// The response that ends a create request once `mapping` is written: the
/// address of its code for the scheme and host of the request.
pub open spec fn creation(mapping: MappingView, scheme: Seq<char>, host: Seq<char>) -> ResponseView {
    ok_json(short_url_json(short_url(scheme, host, mapping.code)))
}

/// The key that a resolve request for `path` looks up: the last segment of the
/// path, which may not be empty.
pub open spec fn resolve_plan(path: Seq<char>) -> Result<Seq<char>, ErrorView> {
    if last_segment(path).len() > 0 {
        Ok(last_segment(path))
    } else {
        Err(ErrorView::InvalidRequest("Invalid path."@))
    }
}

/// Whether `reply` ends a resolve request for which the lookup in the store
/// found `fetched`: the stored URL as the `url` crate writes it, the refusal of
/// a code that the store does not hold, or the failure to read what is stored
/// as a URL.
pub open spec fn resolution(fetched: Option<Seq<char>>, reply: Result<ResponseView, ErrorView>) -> bool {
    match fetched {
        Some(stored) => match normalized_url(stored) {
            Some(full) => reply == Ok::<ResponseView, ErrorView>(ok_json(full_url_json(full))),
            None => reply matches Err(error) && error is SerdeJsonError,
        },
        None => reply == Err::<ResponseView, ErrorView>(
            ErrorView::InvalidRequest("Invalid short url."@),
        ),
    }
}

/// A step's result with both sides as views.
pub open spec fn plan_view(plan: Result<Mapping, Error>) -> Result<MappingView, ErrorView> {
    match plan {
        Ok(mapping) => Ok(mapping@),
        Err(error) => Err(error@),
    }
}

/// Builds the address under which `code` is served for requests that come in
/// by `scheme` on `host`.
pub fn make_short_url(scheme: &str, host: &str, code: &str) -> (address: String)
    ensures
        address@ == short_url(scheme@, host@, code@),
{
    let mut address = String::from_str(scheme);
    address.append("://");
    address.append(host);
    address.append("//");
    address.append(code);
    address
}

/// Builds the JSON object that `opening` starts, with `value` as its one
/// string and a closing brace.
fn object_with_string(opening: &str, value: &str) -> (body: String)
    ensures
        body@ == opening@ + json_string_literal(value@) + "}"@,
{
    let literal = encode_string(value);
    let mut body = String::from_str(opening);
    body.append(literal.as_str());
    body.append("}");
    body
}

/// First step of a create request: reads the URL out of the body and draws a
/// short code for it. The mapping that comes back is to be written to the
/// store; where the request is refused there is nothing to write.
pub fn plan_create(body: Option<&str>) -> (plan: Result<Mapping, Error>)
    ensures
        create_plan(body_text(body), plan_view(plan)),
{
    let url = match body {
        Some(text) => read_object_string(text, "url"),
        None => None,
    };
    match url {
        Some(url) => Ok(Mapping { code: generate_short_code(), url }),
        None => Err(Error::InvalidRequest(String::from_str("Invalid JSON in the request"))),
    }
}

/// Last step of a create request, once `mapping` is written to the store:
/// answers with the address of its code for `scheme` and `host`, those of the
/// URL that the request came in on.
pub fn finish_create(mapping: &Mapping, scheme: &str, host: &str) -> (response: Response)
    ensures
        response@ == creation(mapping@, scheme@, host@),
{
    let address = make_short_url(scheme, host, mapping.code.as_str());
    Response::json(object_with_string("{\"short_url\":", address.as_str()))
}

/// First step of a resolve request: the key to look up in the store.
pub fn plan_resolve(path: &str) -> (plan: Result<&str, Error>)
    ensures
        match resolve_plan(path@) {
            Ok(key) => plan matches Ok(text) && text@ == key,
            Err(refusal) => plan matches Err(error) && error@ == refusal,
        },
{
    let segment = last_segment_of(path);
    if segment.unicode_len() > 0 {
        Ok(segment)
    } else {
        Err(Error::InvalidRequest(String::from_str("Invalid path.")))
    }
}

/// Last step of a resolve request: `fetched` is what the lookup in the store
/// found.
pub fn finish_resolve(fetched: Option<String>) -> (reply: Result<Response, Error>)
    ensures
        resolution(stored_text(fetched), result_view(reply)),
{
    match fetched {
        Some(stored) => {
            match full_url(stored.as_str()) {
                Ok(full) => Ok(Response::json(object_with_string("{\"full_url\":", full.as_str()))),
                Err(error) => Err(error),
            }
        },
        None => Err(Error::InvalidRequest(String::from_str("Invalid short url."))),
    }
}

} // verus!
