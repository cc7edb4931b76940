//! The three invocations of the video tool: their filter graphs and their
//! argument lists.

use vstd::prelude::*;
use crate::filter::{
    apply_filter_graph, apply_filter_graph_text, palette_filter_graph, palette_filter_graph_text,
    scale_filter_graph, scale_filter_graph_text,
};
use crate::paths::{DerivedPaths, PathsView};
use crate::request::{optional_view, ConversionRequest, RequestView};

verus! {

/// One invocation of the video tool.
#[derive(Clone, Copy, Debug, PartialEq, Eq, Structural)]
pub enum Stage {
    /// Scales, crops and trims the input into the intermediate video.
    Scale,
    /// Generates the palette image from the intermediate video.
    Palette,
    /// Maps the intermediate video through the palette into the output.
    PaletteApply,
}

/// The name of the video tool.
pub open spec fn tool_name() -> Seq<char> {
    "ffmpeg"@
}

/// A flag and its value where the value is set, nothing where it is not.
pub open spec fn optional_flag(flag: Seq<char>, value: Option<Seq<char>>) -> Seq<Seq<char>> {
    match value {
        Some(text) => seq![flag, text],
        None => Seq::empty(),
    }
}

/// The arguments of the scale stage.
pub open spec fn scale_arguments(request: RequestView, paths: PathsView) -> Seq<Seq<char>> {
    seq!["-y"@, "-i"@, request.input_path, "-vf"@, scale_filter_graph(request.crop_filter)]
        + optional_flag("-ss"@, request.start_time) + optional_flag("-to"@, request.end_time)
        + seq![paths.intermediate]
}

/// The arguments of the palette stage.
pub open spec fn palette_arguments(request: RequestView, paths: PathsView) -> Seq<Seq<char>> {
    seq![
        "-y"@,
        "-i"@,
        paths.intermediate,
        "-vf"@,
        palette_filter_graph(request.fps, request.colors),
        paths.palette,
    ]
}

/// The arguments of the palette application stage.
pub open spec fn apply_arguments(request: RequestView, paths: PathsView) -> Seq<Seq<char>> {
    seq![
        "-y"@,
        "-i"@,
        paths.intermediate,
        "-i"@,
        paths.palette,
        "-filter_complex"@,
        apply_filter_graph(request.fps),
        paths.output,
    ]
}

/// The arguments with which `stage` invokes the video tool.
pub open spec fn stage_arguments(stage: Stage, request: RequestView, paths: PathsView) -> Seq<
    Seq<char>,
> {
    match stage {
        Stage::Scale => scale_arguments(request, paths),
        Stage::Palette => palette_arguments(request, paths),
        Stage::PaletteApply => apply_arguments(request, paths),
    }
}

/// The name of the video tool.
pub fn tool() -> (name: &'static str)
    ensures
        name@ == tool_name(),
{
    "ffmpeg"
}

/// The tool's name followed by the arguments, each after a space.
pub open spec fn command_line(arguments: Seq<Seq<char>>) -> Seq<char>
    decreases arguments.len(),
{
    if arguments.len() == 0 {
        tool_name()
    } else {
        command_line(arguments.drop_last()) + " "@ + arguments.last()
    }
}

/// Appends a copy of `text` to `arguments`.
fn push_text(arguments: &mut Vec<String>, text: &str)
    ensures
        final(arguments).deep_view() == old(arguments).deep_view().push(text@),
{
    arguments.push(String::from_str(text));
    assert(arguments.deep_view() =~= old(arguments).deep_view().push(text@));
}

/// Appends `flag` and the value to `arguments` where the value is set.
fn push_optional_flag(arguments: &mut Vec<String>, flag: &str, value: &Option<String>)
    ensures
        final(arguments).deep_view() == old(arguments).deep_view() + optional_flag(
            flag@,
            optional_view(*value),
        ),
{
    match value {
        Some(text) => {
            push_text(arguments, flag);
            push_text(arguments, text.as_str());
            assert(arguments.deep_view() =~= old(arguments).deep_view() + seq![flag@, text@]);
        },
        None => {
            assert(arguments.deep_view() =~= old(arguments).deep_view() + Seq::empty());
        },
    }
}

/// The arguments with which `stage` invokes the video tool.
pub fn arguments_for(stage: Stage, request: &ConversionRequest, paths: &DerivedPaths) -> (arguments:
    Vec<String>)
    ensures
        arguments.deep_view() == stage_arguments(stage, request@, paths@),
{
    let mut arguments: Vec<String> = Vec::new();
    assert(arguments.deep_view() =~= Seq::<Seq<char>>::empty());
    push_text(&mut arguments, "-y");
    push_text(&mut arguments, "-i");
    match stage {
        Stage::Scale => {
            push_text(&mut arguments, request.input_path.as_str());
            push_text(&mut arguments, "-vf");
            push_text(&mut arguments, scale_filter_graph_text(&request.crop_filter).as_str());
            push_optional_flag(&mut arguments, "-ss", &request.start_time);
            push_optional_flag(&mut arguments, "-to", &request.end_time);
            push_text(&mut arguments, paths.intermediate.as_str());
            assert(arguments.deep_view() =~= scale_arguments(request@, paths@));
        },
        Stage::Palette => {
            push_text(&mut arguments, paths.intermediate.as_str());
            push_text(&mut arguments, "-vf");
            push_text(
                &mut arguments,
                palette_filter_graph_text(request.fps, request.colors).as_str(),
            );
            push_text(&mut arguments, paths.palette.as_str());
            assert(arguments.deep_view() =~= palette_arguments(request@, paths@));
        },
        Stage::PaletteApply => {
            push_text(&mut arguments, paths.intermediate.as_str());
            push_text(&mut arguments, "-i");
            push_text(&mut arguments, paths.palette.as_str());
            push_text(&mut arguments, "-filter_complex");
            push_text(&mut arguments, apply_filter_graph_text(request.fps).as_str());
            push_text(&mut arguments, paths.output.as_str());
            assert(arguments.deep_view() =~= apply_arguments(request@, paths@));
        },
    }
    arguments
}

/// The invocation as one line of text: the tool's name and the arguments,
/// each after a space.
pub fn command_line_text(arguments: &Vec<String>) -> (line: String)
    ensures
        line@ == command_line(arguments.deep_view()),
{
    let mut line = String::from_str(tool());
    let n: usize = arguments.len();
    let mut i: usize = 0;
    assert(arguments.deep_view().take(0) =~= Seq::<Seq<char>>::empty());
    while i < n
        invariant
            i <= n == arguments.len(),
            line@ == command_line(arguments.deep_view().take(i as int)),
        decreases n - i,
    {
        line.append(" ");
        line.append(arguments[i].as_str());
        proof {
            let all = arguments.deep_view();
            assert(all.take(i + 1).drop_last() =~= all.take(i as int));
            assert(all.take(i + 1).last() == arguments[i as int]@);
        }
        i += 1;
    }
    assert(arguments.deep_view().take(n as int) =~= arguments.deep_view());
    line
}

/// The scale stage hands the filter graph to the tool as the value of its
/// `-vf` flag, right after the input.
pub proof fn lemma_scale_stage_filter_argument(request: RequestView, paths: PathsView)
    ensures
        scale_arguments(request, paths).len() >= 6,
        scale_arguments(request, paths)[3] == "-vf"@,
        scale_arguments(request, paths)[4] == scale_filter_graph(request.crop_filter),
{
}

} // verus!
