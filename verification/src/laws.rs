//! What holds of the service as a whole, proved from the contracts of its
//! steps.

use crate::code::{is_alphanumeric, is_short_code};
use crate::error::{Error, ErrorView};
use crate::long_url::normalized_url;
use crate::path::{last_segment, last_segment_of_joined, slash_free};
use crate::response::{ok_json, response_of, ResponseView};
use crate::service::{
    create_plan, creation, full_url_json, requested_url, resolution, resolve_plan, short_url,
    short_url_json, MappingView,
};
use crate::store::{get, put};
use vstd::prelude::*;
use vstd::std_specs::convert::FromSpec;
use worker::kv::KvError;

verus! {

/// A short code holds no `/`.
pub proof fn short_code_is_slash_free(code: Seq<char>)
    requires
        is_short_code(code),
    ensures
        slash_free(code),
{
    assert forall|i: int| 0 <= i < code.len() implies code[i] != '/' by {
        assert(is_alphanumeric(code[i]));
    }
}

/// The address of a short code ends in that code, and a resolve request for
/// the address, or for the code alone behind a `/`, looks the code up.
pub proof fn short_url_ends_in_code(scheme: Seq<char>, host: Seq<char>, code: Seq<char>)
    requires
        is_short_code(code),
    ensures
        last_segment(short_url(scheme, host, code)) == code,
        resolve_plan(short_url(scheme, host, code)) == Ok::<Seq<char>, ErrorView>(code),
        resolve_plan(seq!['/'] + code) == Ok::<Seq<char>, ErrorView>(code),
{
    reveal_strlit("//");
    short_code_is_slash_free(code);
    let front = scheme + "://"@ + host + seq!['/'];
    assert(short_url(scheme, host, code) =~= front + seq!['/'] + code);
    last_segment_of_joined(front, code);
    last_segment_of_joined(Seq::empty(), code);
}

/// Resolve after create. A create request that is served answers with a
/// short URL whose last segment is a short code. Once its mapping is in the
/// store, a resolve request for that segment answers with the URL that was
/// submitted, provided that URL reads back as it was written.
pub proof fn created_short_url_resolves(
    body: Option<Seq<char>>,
    mapping: MappingView,
    scheme: Seq<char>,
    host: Seq<char>,
    store: Map<Seq<char>, Seq<char>>,
    reply: Result<ResponseView, ErrorView>,
)
    ensures
        create_plan(body, Ok(mapping)) ==> {
            let address = short_url(scheme, host, mapping.code);
            let key = last_segment(address);
            &&& requested_url(body) == Some(mapping.url)
            &&& creation(mapping, scheme, host) == ok_json(short_url_json(address))
            &&& is_short_code(key)
            &&& resolve_plan(address) == Ok::<Seq<char>, ErrorView>(key)
            &&& resolve_plan(seq!['/'] + key) == Ok::<Seq<char>, ErrorView>(key)
            &&& normalized_url(mapping.url) == Some(mapping.url) && resolution(
                get(put(store, mapping.code, mapping.url), key),
                reply,
            ) ==> reply == Ok::<ResponseView, ErrorView>(ok_json(full_url_json(mapping.url)))
        },
{
    if create_plan(body, Ok(mapping)) {
        short_url_ends_in_code(scheme, host, mapping.code);
    }
}

/// A resolve request for a code that the store does not hold is refused as an
/// invalid request, with status 400.
pub proof fn unknown_code_is_invalid_request(
    store: Map<Seq<char>, Seq<char>>,
    code: Seq<char>,
    reply: Result<ResponseView, ErrorView>,
)
    ensures
        !store.dom().contains(code) && resolution(get(store, code), reply) ==> {
            &&& reply == Err::<ResponseView, ErrorView>(
                ErrorView::InvalidRequest("Invalid short url."@),
            )
            &&& response_of(reply).status_code == 400
        },
{
}

/// A create request whose body does not give a URL is refused as an invalid
/// request, with status 400, and plans no write to the store.
pub proof fn unreadable_body_is_refused(
    body: Option<Seq<char>>,
    plan: Result<MappingView, ErrorView>,
)
    ensures
        requested_url(body) is None && create_plan(body, plan) ==> {
            &&& plan == Err::<MappingView, ErrorView>(
                ErrorView::InvalidRequest("Invalid JSON in the request"@),
            )
            &&& plan->Err_0.status_code() == 400
        },
{
}

/// Two short URLs for one scheme and host are the same only where their codes
/// are: two create requests whose codes differ are answered with different
/// short URLs, whatever URL each submitted.
pub proof fn short_urls_differ_with_codes(
    scheme: Seq<char>,
    host: Seq<char>,
    first: Seq<char>,
    second: Seq<char>,
)
    ensures
        short_url(scheme, host, first) == short_url(scheme, host, second) <==> first == second,
{
    let front = scheme + "://"@ + host + "//"@;
    if short_url(scheme, host, first) == short_url(scheme, host, second) {
        assert(short_url(scheme, host, first).skip(front.len() as int) =~= first);
        assert(short_url(scheme, host, second).skip(front.len() as int) =~= second);
    }
}

/// A failure that the store, the runtime or the JSON codec reports becomes
/// the error of its kind, which is answered with status 500.
pub proof fn outside_failures_are_server_errors(
    store: KvError,
    runtime: worker::Error,
    codec: serde_json::Error,
)
    ensures
        <Error as FromSpec<KvError>>::from_spec(store)@ == ErrorView::KvError(store),
        <Error as FromSpec<worker::Error>>::from_spec(runtime)@ == ErrorView::WorkerError(runtime),
        <Error as FromSpec<serde_json::Error>>::from_spec(codec)@ == ErrorView::SerdeJsonError(
            codec,
        ),
        <Error as FromSpec<KvError>>::from_spec(store)@.status_code() == 500,
        <Error as FromSpec<worker::Error>>::from_spec(runtime)@.status_code() == 500,
        <Error as FromSpec<serde_json::Error>>::from_spec(codec)@.status_code() == 500,
{
}

} // verus!
