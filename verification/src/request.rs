//! The parameters of one conversion, and how the answers typed at the
//! prompts are read into them.

use vstd::prelude::*;
use crate::number::{number_or, parsed_number, read_number};
use crate::text::{strip_quotes, trim, trimmed, unquoted};

verus! {

/// Frames per second where the answer holds no number.
pub const DEFAULT_FPS: u32 = 15;

/// Greatest number of palette colours where the answer holds no number.
pub const DEFAULT_COLORS: u32 = 90;

/// Which parameters a conversion exposes.
#[derive(Clone, Copy, Debug, PartialEq, Eq, Structural)]
pub enum Variant {
    /// Input path and frame rate only; the palette is not bounded.
    Basic,
    /// Also start and end time, a crop filter and the number of colours.
    Extended,
}

/// A question put to the user; each is answered by one line of text.
#[derive(Clone, Copy, Debug, PartialEq, Eq, Structural)]
pub enum Prompt {
    InputPath,
    Fps,
    StartTime,
    EndTime,
    CropFilter,
    Colors,
}

/// The parameters of one conversion.
#[derive(Debug, PartialEq, Eq)]
pub struct ConversionRequest {
    /// The source video.
    pub input_path: String,
    /// Frames per second of the animated image.
    pub fps: u32,
    /// Where the clip starts, as `HH:MM:SS`; `None` for the beginning.
    pub start_time: Option<String>,
    /// Where the clip ends, as `HH:MM:SS`; `None` for the end of the video.
    pub end_time: Option<String>,
    /// The area to keep, as `width:height:x:y`; `None` for the whole frame.
    pub crop_filter: Option<String>,
    /// Greatest number of colours in the palette; `None` leaves it unbounded.
    pub colors: Option<u32>,
}

/// A conversion request as plain values.
pub ghost struct RequestView {
    pub input_path: Seq<char>,
    pub fps: u32,
    pub start_time: Option<Seq<char>>,
    pub end_time: Option<Seq<char>>,
    pub crop_filter: Option<Seq<char>>,
    pub colors: Option<u32>,
}

/// The text of an optional field.
pub open spec fn optional_view(field: Option<String>) -> Option<Seq<char>> {
    match field {
        Some(text) => Some(text@),
        None => None,
    }
}

impl View for ConversionRequest {
    type V = RequestView;

    open spec fn view(&self) -> RequestView {
        RequestView {
            input_path: self.input_path@,
            fps: self.fps,
            start_time: optional_view(self.start_time),
            end_time: optional_view(self.end_time),
            crop_filter: optional_view(self.crop_filter),
            colors: self.colors,
        }
    }
}

/// The path that a line names: the line without the white space at its
/// ends, and then without the double quotes at its ends.
pub open spec fn path_in(line: Seq<char>) -> Seq<char> {
    unquoted(trimmed(line))
}

/// The text that a line holds between the white space at its ends, if any.
pub open spec fn text_in(line: Seq<char>) -> Option<Seq<char>> {
    if trimmed(line).len() == 0 {
        None
    } else {
        Some(trimmed(line))
    }
}

/// The request before any prompt is answered.
pub open spec fn unanswered(variant: Variant) -> RequestView {
    RequestView {
        input_path: Seq::empty(),
        fps: DEFAULT_FPS,
        start_time: None,
        end_time: None,
        crop_filter: None,
        colors: match variant {
            Variant::Basic => None,
            Variant::Extended => Some(DEFAULT_COLORS),
        },
    }
}

/// The request after `line` was given in answer to `prompt`.
pub open spec fn answered(request: RequestView, prompt: Prompt, line: Seq<char>) -> RequestView {
    match prompt {
        Prompt::InputPath => RequestView { input_path: path_in(line), ..request },
        Prompt::Fps => RequestView { fps: number_or(line, DEFAULT_FPS), ..request },
        Prompt::StartTime => RequestView { start_time: text_in(line), ..request },
        Prompt::EndTime => RequestView { end_time: text_in(line), ..request },
        Prompt::CropFilter => RequestView { crop_filter: text_in(line), ..request },
        Prompt::Colors => RequestView { colors: Some(number_or(line, DEFAULT_COLORS)), ..request },
    }
}

/// What is shown to the user for `prompt`.
pub open spec fn prompt_text(prompt: Prompt) -> Seq<char> {
    match prompt {
        Prompt::InputPath => "Path to the source video file: "@,
        Prompt::Fps => "Enter FPS (default is 15): "@,
        Prompt::StartTime => "Enter the start time (HH:MM:SS, default is 00:00:00): "@,
        Prompt::EndTime => "Enter the end time (HH:MM:SS, default to the video's end): "@,
        Prompt::CropFilter => "Enter crop filter (width:height:x:y, defaults to entire area): "@,
        Prompt::Colors => "Enter number of colors (default is 90): "@,
    }
}

impl Prompt {
    /// What is shown to the user.
    pub fn text(self) -> (text: &'static str)
        ensures
            text@ == prompt_text(self),
    {
        match self {
            Prompt::InputPath => "Path to the source video file: ",
            Prompt::Fps => "Enter FPS (default is 15): ",
            Prompt::StartTime => "Enter the start time (HH:MM:SS, default is 00:00:00): ",
            Prompt::EndTime => "Enter the end time (HH:MM:SS, default to the video's end): ",
            Prompt::CropFilter => "Enter crop filter (width:height:x:y, defaults to entire area): ",
            Prompt::Colors => "Enter number of colors (default is 90): ",
        }
    }
}

/// Reads the path that a line names.
pub fn read_path(line: &str) -> (path: String)
    ensures
        path@ == path_in(line@),
{
    String::from_str(strip_quotes(trim(line)))
}

/// Reads the text that a line holds, if it holds any.
pub fn read_text(line: &str) -> (text: Option<String>)
    ensures
        optional_view(text) == text_in(line@),
{
    let inner = trim(line);
    if inner.unicode_len() == 0 {
        None
    } else {
        Some(String::from_str(inner))
    }
}

impl ConversionRequest {
    /// The request before any prompt is answered.
    pub fn new(variant: Variant) -> (request: ConversionRequest)
        ensures
            request@ == unanswered(variant),
    {
        ConversionRequest {
            input_path: String::new(),
            fps: DEFAULT_FPS,
            start_time: None,
            end_time: None,
            crop_filter: None,
            colors: match variant {
                Variant::Basic => None,
                Variant::Extended => Some(DEFAULT_COLORS),
            },
        }
    }

    /// Takes `line` as the answer to `prompt`.
    pub fn answer(&mut self, prompt: Prompt, line: &str)
        ensures
            final(self)@ == answered(old(self)@, prompt, line@),
    {
        match prompt {
            Prompt::InputPath => {
                self.input_path = read_path(line);
            },
            Prompt::Fps => {
                self.fps = read_number(line, DEFAULT_FPS);
            },
            Prompt::StartTime => {
                self.start_time = read_text(line);
            },
            Prompt::EndTime => {
                self.end_time = read_text(line);
            },
            Prompt::CropFilter => {
                self.crop_filter = read_text(line);
            },
            Prompt::Colors => {
                self.colors = Some(read_number(line, DEFAULT_COLORS));
            },
        }
    }
}

/// An answer that holds no number leaves the frame rate at 15 and the
/// number of colours at 90.
pub proof fn lemma_defaults_for_answers_without_number(request: RequestView, line: Seq<char>)
    requires
        parsed_number(trimmed(line)) is None,
    ensures
        answered(request, Prompt::Fps, line).fps == 15,
        answered(request, Prompt::Colors, line).colors == Some(90u32),
{
}

} // verus!
