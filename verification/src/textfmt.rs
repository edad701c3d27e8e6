//! Output filenames and fixed-width text for table rendering.

use vstd::prelude::*;
use crate::numfmt::{spec_pad4, pad4_u64};

verus! {

/// The output filename for one batch unit: the prefix, an underscore, either
/// the image id or the unit's 1-based index zero-filled to four digits, a
/// dot, and the format extension.
pub open spec fn spec_filename(
    index: nat,
    prefix: Seq<char>,
    format: Seq<char>,
    image_id: Option<Seq<char>>,
) -> Seq<char> {
    match image_id {
        Some(id) => prefix + seq!['_'] + id + seq!['.'] + format,
        None => prefix + seq!['_'] + spec_pad4(index + 1) + seq!['.'] + format,
    }
}

/// Builds the output filename for the unit at `index`. The name is derived
/// from the unit's original index, never from completion order.
pub fn generate_filename(index: u32, prefix: &str, format: &str, image_id: Option<&str>) -> (r:
    String)
    requires
        index < u32::MAX,
    ensures
        r@ == spec_filename(
            index as nat,
            prefix@,
            format@,
            match image_id {
                Some(id) => Some(id@),
                None => None,
            },
        ),
{
    let mut s = prefix.to_owned();
    s.append("_");
    match image_id {
        Some(id) => {
            s.append(id);
        },
        None => {
            let padded = pad4_u64((index + 1) as u64);
            s.append(padded.as_str());
        },
    }
    s.append(".");
    s.append(format);
    proof {
        reveal_strlit("_");
        reveal_strlit(".");
        assert(s@ =~= spec_filename(
            index as nat,
            prefix@,
            format@,
            match image_id {
                Some(id) => Some(id@),
                None => None,
            },
        ));
    }
    s
}

/// A run of `n` space characters.
pub open spec fn spec_spaces(n: nat) -> Seq<char>
    decreases n,
{
    if n == 0 {
        Seq::empty()
    } else {
        spec_spaces((n - 1) as nat).push(' ')
    }
}

/// Fixed-width rendering of `s`: padded on the right with spaces up to
/// `max` characters, or cut to `max - 3` characters with a trailing ellipsis
/// when it is longer than `max`.
pub open spec fn spec_truncate(s: Seq<char>, max: nat) -> Seq<char>
    recommends
        max >= 3,
{
    if s.len() <= max {
        s + spec_spaces((max - s.len()) as nat)
    } else {
        s.subrange(0, max - 3) + seq!['.', '.', '.']
    }
}

/// Renders `s` at exactly `max_len` characters for a table column: padded
/// with spaces, or truncated with an ellipsis.
pub fn truncate_string(s: &str, max_len: usize) -> (r: String)
    requires
        max_len >= 3,
    ensures
        r@ == spec_truncate(s@, max_len as nat),
{
    let n = s.unicode_len();
    if n <= max_len {
        let mut r = s.to_owned();
        let mut i: usize = n;
        while i < max_len
            invariant
                n <= i <= max_len,
                r@ == s@ + spec_spaces((i - n) as nat),
            decreases max_len - i,
        {
            r.append(" ");
            i = i + 1;
            proof {
                reveal_strlit(" ");
                assert(r@ =~= s@ + spec_spaces((i - n) as nat));
            }
        }
        r
    } else {
        let mut r = s.substring_char(0, max_len - 3).to_owned();
        r.append("...");
        proof {
            reveal_strlit("...");
            assert(r@ =~= spec_truncate(s@, max_len as nat));
        }
        r
    }
}

} // verus!
