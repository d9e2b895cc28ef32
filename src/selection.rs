//! Which files of a directory are checked: those with a media extension.

use vstd::prelude::*;

use crate::text::same_chars;

verus! {

/// The extensions of the files that a directory walk picks up.
pub open spec fn media_extensions() -> Seq<Seq<char>> {
    seq!["mkv"@, "mp4"@, "avi"@, "webm"@, "mov"@, "wmv"@]
}

/// Whether a file with this extension (without its dot) is checked.
pub fn is_media_extension(extension: &str) -> (r: bool)
    ensures
        r == media_extensions().contains(extension@),
{
    let e = extension;
    let r = same_chars(e, "mkv") || same_chars(e, "mp4") || same_chars(e, "avi") || same_chars(
        e,
        "webm",
    ) || same_chars(e, "mov") || same_chars(e, "wmv");
    let ghost m = media_extensions();
    assert(m[0] == "mkv"@ && m[1] == "mp4"@ && m[2] == "avi"@ && m[3] == "webm"@ && m[4] == "mov"@
        && m[5] == "wmv"@);
    if r {
        assert(m.contains(e@));
    } else {
        assert forall|i: int| 0 <= i < m.len() implies m[i] != e@ by {}
    }
    r
}

} // verus!
