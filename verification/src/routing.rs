//! Classification of the `/users/<segment>` path segment: a segment shaped
//! like a hyphenated id belongs to the lookup-by-id handler, anything else to
//! the lookup-by-email handler. The dispatch is explicit here instead of
//! leaning on a route-ranking order.

use vstd::prelude::*;
use vstd::string::StrSliceExecFns;

verus! {

pub open spec fn is_hex_char(c: char) -> bool {
    ('0' <= c && c <= '9') || ('a' <= c && c <= 'f')
}

/// What an id-shaped segment holds at position `i`: a dash at the four group
/// boundaries, a lowercase hex digit everywhere else.
pub open spec fn id_position_ok(s: Seq<char>, i: int) -> bool {
    if i == 8 || i == 13 || i == 18 || i == 23 {
        s[i] == '-'
    } else {
        is_hex_char(s[i])
    }
}

/// A segment shaped like a record id: 36 characters of lowercase hex in five
/// dash-separated groups of 8, 4, 4, 4 and 12. Only this canonical form
/// counts — ids are issued in it, so a segment in any other casing is
/// dispatched as an email lookup and answers not-found.
pub open spec fn is_id_shaped(s: Seq<char>) -> bool {
    s.len() == 36 && (forall|i: int| 0 <= i < 36 ==> #[trigger] id_position_ok(s, i))
}

/// Decides whether a path segment is id-shaped.
pub fn is_id_segment(segment: &str) -> (r: bool)
    ensures
        r == is_id_shaped(segment@),
{
    let n = segment.unicode_len();
    if n != 36 {
        return false;
    }
    let mut i: usize = 0;
    while i < 36
        invariant
            segment@.len() == 36,
            i <= 36,
            forall|j: int| 0 <= j < i ==> #[trigger] id_position_ok(segment@, j),
        decreases 36 - i,
    {
        let c = segment.get_char(i);
        let ok = if i == 8 || i == 13 || i == 18 || i == 23 {
            c == '-'
        } else {
            ('0' <= c && c <= '9') || ('a' <= c && c <= 'f')
        };
        if !ok {
            assert(!id_position_ok(segment@, i as int));
            return false;
        }
        i += 1;
    }
    true
}

} // verus!
