//! How the filter in force and the queue are shown.

use crate::report::{Line, LineModel, Stream, Tone};
use crate::tags::{TagsData, TagsModel};
use crate::text::joined_text;
use crate::trusted::{debug_strings, debug_text};
use vstd::prelude::*;
use vstd::string::*;

verus! {

/// The line for one list of a filter: the label in its tone, then the list.
pub open spec fn list_line(tone: Tone, label: Seq<char>, items: Seq<Seq<char>>) -> LineModel {
    LineModel::empty(Stream::Stdout).with(Tone::Plain, "    "@).with(tone, label).with(
        Tone::Plain,
        ": "@ + debug_text(items),
    )
}

/// The lines that show a filter: a heading, then one line for each list.
pub open spec fn tags_lines(tags: TagsModel) -> Seq<LineModel> {
    seq![
        LineModel::empty(Stream::Stdout).with(Tone::Cyan, "current playback tags:"@),
        list_line(Tone::Green, "any"@, tags.any),
        list_line(Tone::Red, "not"@, tags.not),
    ]
}

/// The line for one title of the queue.
pub open spec fn title_line(tone: Tone, title: Seq<char>) -> LineModel {
    LineModel::empty(Stream::Stdout).with(Tone::Plain, "    "@).with(tone, title)
}

/// The lines that show the queue. After the heading: for an empty queue, that
/// there are no songs; else the first title, as the one playing; and where
/// there is a second title, that title, as the one up next. Further titles
/// are not shown.
pub open spec fn now_playing_lines(queue: Seq<Seq<char>>) -> Seq<LineModel> {
    let heading = LineModel::empty(Stream::Stdout).with(Tone::Green, "now playing:"@);
    if queue.len() == 0 {
        seq![
            heading,
            LineModel::empty(Stream::Stdout).with(Tone::Plain, "  "@).with(
                Tone::Red,
                "no songs in the queue."@,
            ),
        ]
    } else if queue.len() == 1 {
        seq![heading, title_line(Tone::Yellow, queue[0])]
    } else {
        seq![
            heading,
            title_line(Tone::Yellow, queue[0]),
            LineModel::empty(Stream::Stdout).with(Tone::Red, "up next:"@),
            title_line(Tone::Magenta, queue[1]),
        ]
    }
}

/// What is shown of a queue depends on its first two titles only.
pub proof fn lemma_queue_shown_by_two_titles(queue: Seq<Seq<char>>)
    requires
        queue.len() >= 2,
    ensures
        now_playing_lines(queue) == now_playing_lines(queue.take(2)),
{
}

/// The line for one list of a filter.
pub fn show_list(tone: Tone, label: &str, items: &Vec<String>) -> (line: Line)
    ensures
        line.deep_view() == list_line(tone, label@, items.deep_view()),
{
    Line::new(Stream::Stdout).with(Tone::Plain, "    ".to_owned()).with(
        tone,
        label.to_owned(),
    ).with(Tone::Plain, joined_text(": ", debug_strings(items).as_str()))
}

/// The lines that show a filter.
pub fn show_tags(tags: &TagsData) -> (lines: Vec<Line>)
    ensures
        lines.deep_view() == tags_lines(tags.deep_view()),
{
    let mut lines: Vec<Line> = Vec::new();
    lines.push(Line::new(Stream::Stdout).with(Tone::Cyan, "current playback tags:".to_owned()));
    lines.push(show_list(Tone::Green, "any", &tags.any));
    lines.push(show_list(Tone::Red, "not", &tags.not));
    lines
}

/// The line for one title of the queue.
pub fn show_title(tone: Tone, title: &String) -> (line: Line)
    ensures
        line.deep_view() == title_line(tone, title@),
{
    Line::new(Stream::Stdout).with(Tone::Plain, "    ".to_owned()).with(tone, title.clone())
}

/// The lines that show the queue.
pub fn show_queue(queue: &Vec<String>) -> (lines: Vec<Line>)
    ensures
        lines.deep_view() == now_playing_lines(queue.deep_view()),
{
    let mut lines: Vec<Line> = Vec::new();
    lines.push(Line::new(Stream::Stdout).with(Tone::Green, "now playing:".to_owned()));
    if queue.len() == 0 {
        lines.push(
            Line::new(Stream::Stdout).with(Tone::Plain, "  ".to_owned()).with(
                Tone::Red,
                "no songs in the queue.".to_owned(),
            ),
        );
    } else {
        lines.push(show_title(Tone::Yellow, &queue[0]));
        if queue.len() > 1 {
            lines.push(Line::new(Stream::Stdout).with(Tone::Red, "up next:".to_owned()));
            lines.push(show_title(Tone::Magenta, &queue[1]));
        }
    }
    lines
}

} // verus!
