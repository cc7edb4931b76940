//! The files that a conversion writes, derived from the path of its input.

use vstd::prelude::*;
use crate::text::{ends_with, strip_suffix, strip_suffix_repeated};

verus! {

/// The file name of the palette image.
pub open spec fn palette_name() -> Seq<char> {
    "palette.png"@
}

/// The input path without the extension `.mp4`, however often it is
/// repeated at the end.
pub open spec fn video_stem(input: Seq<char>) -> Seq<char> {
    strip_suffix_repeated(input, ".mp4"@)
}

/// The path of the scaled video: the stem and `_steam.mp4`.
pub open spec fn intermediate_path(input: Seq<char>) -> Seq<char> {
    video_stem(input) + "_steam.mp4"@
}

/// The path of the animated image: the stem and `_steam.gif`.
pub open spec fn output_path(input: Seq<char>) -> Seq<char> {
    video_stem(input) + "_steam.gif"@
}

/// Whether `name` can be given to a file on every platform without being
/// taken for anything but one path component: letters, digits and dots of
/// ASCII, a letter first.
pub open spec fn is_plain_name(name: Seq<char>) -> bool {
    &&& name.len() > 0
    &&& is_ascii_letter(name[0])
    &&& forall|i: int|
        0 <= i < name.len() ==> is_ascii_letter(#[trigger] name[i]) || '0' <= name[i] <= '9'
            || name[i] == '.'
}

/// Whether `c` is a letter of ASCII.
pub open spec fn is_ascii_letter(c: char) -> bool {
    'a' <= c <= 'z' || 'A' <= c <= 'Z'
}

/// The files that a conversion writes.
#[derive(Debug, PartialEq, Eq)]
pub struct DerivedPaths {
    /// The scaled, cropped and trimmed video.
    pub intermediate: String,
    /// The palette image, beside the input; removed after use.
    pub palette: String,
    /// The animated image.
    pub output: String,
}

/// The derived paths as plain values.
pub ghost struct PathsView {
    pub intermediate: Seq<char>,
    pub palette: Seq<char>,
    pub output: Seq<char>,
}

impl View for DerivedPaths {
    type V = PathsView;

    open spec fn view(&self) -> PathsView {
        PathsView {
            intermediate: self.intermediate@,
            palette: self.palette@,
            output: self.output@,
        }
    }
}

/// The paths derived from `input`, given the path of the palette image.
pub open spec fn derived_paths(input: Seq<char>, palette: Seq<char>) -> PathsView {
    PathsView {
        intermediate: intermediate_path(input),
        palette: palette,
        output: output_path(input),
    }
}

/// Whether `paths` are the paths that belong to `input`: the two outputs are
/// named after its stem, and the palette image has its fixed name.
pub open spec fn belong_to(paths: PathsView, input: Seq<char>) -> bool {
    &&& paths == derived_paths(input, paths.palette)
    &&& ends_with(paths.palette, palette_name())
}

/// The path `path` with its last component replaced by `name`, as
/// `std::path::Path::with_file_name` gives it. How a path divides into
/// components depends on the platform, so all that is claimed is that the
/// result ends with the new name.
#[verifier::external_body]
fn with_file_name(path: &str, name: &str) -> (sibling: String)
    requires
        is_plain_name(name@),
    ensures
        ends_with(sibling@, name@),
{
    std::path::Path::new(path).with_file_name(name).to_string_lossy().into_owned()
}

impl DerivedPaths {
    /// The paths derived from `input`, with the palette image at `palette`.
    pub fn with_palette(input: &str, palette: String) -> (paths: DerivedPaths)
        ensures
            paths@ == derived_paths(input@, palette@),
    {
        let stem = strip_suffix(input, ".mp4");
        let intermediate = String::from_str(stem).concat("_steam.mp4");
        let output = String::from_str(stem).concat("_steam.gif");
        DerivedPaths { intermediate, palette, output }
    }

    /// The paths derived from `input`; the palette image stands beside it.
    pub fn derive(input: &str) -> (paths: DerivedPaths)
        ensures
            belong_to(paths@, input@),
    {
        proof {
            reveal_strlit("palette.png");
        }
        let palette = with_file_name(input, "palette.png");
        DerivedPaths::with_palette(input, palette)
    }
}

} // verus!
