//! The last segment of a request path.

use vstd::prelude::*;

verus! {

/// Where the last segment of `path` starts: just after its last `/`, or at 0
/// where it has none.
pub open spec fn last_segment_start(path: Seq<char>) -> int
    decreases path.len(),
{
    if path.len() == 0 {
        0
    } else if path.last() == '/' {
        path.len() as int
    } else {
        last_segment_start(path.drop_last())
    }
}

/// The last segment of `path`: what follows its last `/`, or all of it where
/// it has none.
pub open spec fn last_segment(path: Seq<char>) -> Seq<char> {
    path.skip(last_segment_start(path))
}

/// Whether `/` occurs nowhere in `text`.
pub open spec fn slash_free(text: Seq<char>) -> bool {
    forall|i: int| 0 <= i < text.len() ==> text[i] != '/'
}

/// The last segment starts inside the path, directly after a `/` or at the
/// front, and no `/` follows.
pub proof fn last_segment_start_is_after_last_slash(path: Seq<char>)
    ensures
        0 <= last_segment_start(path) <= path.len(),
        last_segment_start(path) > 0 ==> path[last_segment_start(path) - 1] == '/',
        forall|i: int| last_segment_start(path) <= i < path.len() ==> path[i] != '/',
    decreases path.len(),
{
    if path.len() > 0 && path.last() != '/' {
        let front = path.drop_last();
        last_segment_start_is_after_last_slash(front);
        assert forall|i: int| last_segment_start(path) <= i < path.len() implies path[i] != '/' by {
            if i < front.len() {
                assert(path[i] == front[i]);
            }
        }
    }
}

/// A path that ends in `/` followed by a text without `/` has that text as its
/// last segment.
pub proof fn last_segment_of_joined(front: Seq<char>, segment: Seq<char>)
    requires
        slash_free(segment),
    ensures
        last_segment(front + seq!['/'] + segment) == segment,
{
    let path = front + seq!['/'] + segment;
    let cut = front.len() as int + 1;
    last_segment_start_is_after_last_slash(path);
    assert(path[cut - 1] == '/');
    assert(forall|i: int| cut <= i < path.len() ==> path[i] == segment[i - cut]);
    assert(last_segment_start(path) == cut) by {
        let start = last_segment_start(path);
        if start < cut {
            assert(path[cut - 1] != '/');
        }
        if start > cut {
            assert(path[start - 1] == segment[start - 1 - cut]);
        }
    }
    assert(path.skip(cut) =~= segment);
}

/// Cuts the last segment out of `path`.
pub fn last_segment_of(path: &str) -> (segment: &str)
    ensures
        segment@ == last_segment(path@),
{
    let n: usize = path.unicode_len();
    let mut start: usize = n;
    assert(path@.take(n as int) =~= path@);
    while start > 0 && path.get_char(start - 1) != '/'
        invariant
            start <= n,
            n == path@.len(),
            last_segment_start(path@) == last_segment_start(path@.take(start as int)),
        decreases start,
    {
        assert(path@.take(start as int).drop_last() =~= path@.take(start - 1));
        start -= 1;
    }
    assert(last_segment_start(path@.take(start as int)) == start);
    path.substring_char(start, n)
}

} // verus!
