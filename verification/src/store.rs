//! The key-value store as the service relies on it: a map from codes to URLs
//! in which a write replaces what was there.

use vstd::prelude::*;

verus! {

/// The store after `url` was written under `code`: the write takes the place
/// of whatever stood there.
pub open spec fn put(store: Map<Seq<char>, Seq<char>>, code: Seq<char>, url: Seq<char>) -> Map<
    Seq<char>,
    Seq<char>,
> {
    store.insert(code, url)
}

/// What a lookup of `code` finds in the store: the value written last under
/// it, or nothing.
pub open spec fn get(store: Map<Seq<char>, Seq<char>>, code: Seq<char>) -> Option<Seq<char>> {
    if store.dom().contains(code) {
        Some(store[code])
    } else {
        None
    }
}

/// A lookup after a write finds what was written under the code that was
/// written, and what was there before under every other code.
pub proof fn get_after_put(
    store: Map<Seq<char>, Seq<char>>,
    code: Seq<char>,
    url: Seq<char>,
    other: Seq<char>,
)
    ensures
        get(put(store, code, url), code) == Some(url),
        other != code ==> get(put(store, code, url), other) == get(store, other),
{
}

} // verus!
