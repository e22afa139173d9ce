use vstd::prelude::*;

verus! {

/// The debug status line for a terminal `width` characters wide: nothing
/// when there is no room, the full line when it fits, otherwise the compact
/// line cut to the width.
pub open spec fn spec_status_line(full: Seq<char>, compact: Seq<char>, width: nat) -> Seq<char> {
    if width == 0 {
        Seq::empty()
    } else if full.len() <= width {
        full
    } else if compact.len() <= width {
        compact
    } else {
        compact.take(width as int)
    }
}

/// Chooses the status line to show; see `spec_status_line`.
pub fn fit_status_line(full: &str, compact: &str, width: usize) -> (line: String)
    ensures
        line@ == spec_status_line(full@, compact@, width as nat),
{
    if width == 0 {
        return String::new();
    }
    if full.unicode_len() <= width {
        return full.to_owned();
    }
    let compact_len = compact.unicode_len();
    let end = if compact_len < width {
        compact_len
    } else {
        width
    };
    let cut = compact.substring_char(0, end);
    proof {
        if compact@.len() <= width {
            assert(compact@.subrange(0, end as int) =~= compact@);
        }
    }
    cut.to_owned()
}

} // verus!
