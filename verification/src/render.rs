//! What the drawing code reads off the state before it draws.
//!
//! Drawing itself belongs to the widget toolkit. The choices that precede it
//! are made here: where a popup goes, which frame of the progress animation
//! is due, how a log line splits into its timestamp and its text, and which
//! tone each state of a unit is shown in.

use ratatui::layout::Rect;
use vstd::prelude::*;
use vstd::utf8::encode_utf8;
use crate::home::model::SPINNER_FRAMES;
use crate::text::run_len;

verus! {

/// The rectangle of the widget toolkit: a corner, a width and a height, all
/// of them public fields.
#[verifier::external_type_specification]
pub struct ExRect(Rect);

/// The width and height that the toolkit cuts a rectangle down to when its
/// area is more than the largest `u16`.
pub uninterp spec fn clipped(width: u16, height: u16) -> (u16, u16);

/// `Rect::new` keeps the corner. It keeps the width and the height too where
/// their product is at most the largest `u16`, and otherwise cuts both down,
/// which depends on the two alone.
pub assume_specification[ Rect::new ](x: u16, y: u16, width: u16, height: u16) -> (rect: Rect)
    ensures
        rect.x == x,
        rect.y == y,
        (rect.width, rect.height) == if width * height > u16::MAX {
            clipped(width, height)
        } else {
            (width, height)
        },
;

/// `str::split_once` on a space: the text before the first space and the text
/// after it, where there is a space.
#[verifier::external_body]
fn split_at_space(line: &str) -> (parts: Option<(&str, &str)>)
    ensures
        match parts {
            Some((head, tail)) => {
                &&& run_len(line@, ' ') < line@.len()
                &&& head@ == line@.take(run_len(line@, ' ') as int)
                &&& tail@ == line@.skip(run_len(line@, ' ') as int + 1)
            },
            None => run_len(line@, ' ') == line@.len(),
        },
{
    line.split_once(' ')
}

/// Whether two texts are the same.
fn same(a: &str, b: &str) -> (equal: bool)
    ensures
        equal == (a@ == b@),
{
    a.to_owned() == b.to_owned()
}

/// The smaller of two numbers.
pub open spec fn least(a: u16, b: u16) -> u16 {
    if a <= b {
        a
    } else {
        b
    }
}

/// A rectangle of at most `width` by `height` in the middle of an area of the
/// size of `r` whose corner is the origin.
pub fn centered_rect_abs(width: u16, height: u16, r: Rect) -> (rect: Rect)
    ensures
        rect.x == (r.width - least(width, r.width)) / 2,
        rect.y == (r.height - least(height, r.height)) / 2,
        (rect.width, rect.height) == if least(width, r.width) * least(height, r.height)
            > u16::MAX {
            clipped(least(width, r.width), least(height, r.height))
        } else {
            (least(width, r.width), least(height, r.height))
        },
{
    let offset_x = (r.width.saturating_sub(width)) / 2;
    let offset_y = (r.height.saturating_sub(height)) / 2;
    let width = if width <= r.width {
        width
    } else {
        r.width
    };
    let height = if height <= r.height {
        height
    } else {
        r.height
    };
    Rect::new(offset_x, offset_y, width, height)
}

/// The space added to the length of a unit's name for the width of a popup.
pub const POPUP_PADDING: u16 = 18;

/// The width of a popup about a unit whose name has `name_len` bytes, on a
/// screen `screen_width` wide: the name and its padding, as far as the screen
/// allows.
pub fn popup_width(name_len: usize, screen_width: u16) -> (width: u16)
    ensures
        width == if name_len + POPUP_PADDING <= screen_width {
            (name_len + POPUP_PADDING) as u16
        } else {
            screen_width
        },
{
    if name_len <= (screen_width as usize) && (screen_width as usize) - name_len >= (
    POPUP_PADDING as usize) {
        (name_len as u16) + POPUP_PADDING
    } else {
        screen_width
    }
}

/// The frames of the progress animation.
pub open spec fn spinner_frames() -> Seq<char> {
    seq!['⣷', '⣯', '⣟', '⡿', '⢿', '⣻', '⣽', '⣾']
}

/// The frame of the progress animation for a counter value.
pub fn spinner_char(tick: u8) -> (frame: char)
    ensures
        frame == spinner_frames()[tick as int % SPINNER_FRAMES as int],
{
    match tick % SPINNER_FRAMES {
        0 => '⣷',
        1 => '⣯',
        2 => '⣟',
        3 => '⡿',
        4 => '⢿',
        5 => '⣻',
        6 => '⣽',
        _ => '⣾',
    }
}

/// The number of bytes of a timestamp in a log line.
pub const TIMESTAMP_BYTES: usize = 24;

/// The timestamp of a log line and the text after it: the line is cut at its
/// first space, where what stands before the space has the length of a
/// timestamp in bytes.
pub open spec fn stamped(line: Seq<char>) -> Option<(Seq<char>, Seq<char>)> {
    let first = run_len(line, ' ');
    if first < line.len() && encode_utf8(line.take(first as int)).len() == TIMESTAMP_BYTES {
        Some((line.take(first as int), line.skip(first as int + 1)))
    } else {
        None
    }
}

/// Splits a log line into its timestamp and the text after it, if it begins
/// with a timestamp.
pub fn split_timestamp(line: &str) -> (parts: Option<(&str, &str)>)
    ensures
        match stamped(line@) {
            Some((date, rest)) => parts matches Some((d, r)) && d@ == date && r@ == rest,
            None => parts is None,
        },
{
    match split_at_space(line) {
        Some((date, rest)) => {
            if date.as_bytes().len() != TIMESTAMP_BYTES {
                None
            } else {
                Some((date, rest))
            }
        },
        None => None,
    }
}

/// The tone in which a state is shown.
#[derive(Debug, Copy, Clone, PartialEq, Eq, Structural)]
pub enum Tone {
    Good,
    Warning,
    Bad,
    Plain,
}

/// The tone of a load state.
pub open spec fn load_tone_of(state: Seq<char>) -> Tone {
    if state == "loaded"@ {
        Tone::Good
    } else if state == "not-found"@ {
        Tone::Warning
    } else if state == "error"@ {
        Tone::Bad
    } else {
        Tone::Plain
    }
}

/// The tone of an active state.
pub open spec fn active_tone_of(state: Seq<char>) -> Tone {
    if state == "active"@ {
        Tone::Good
    } else if state == "inactive"@ {
        Tone::Bad
    } else {
        Tone::Plain
    }
}

/// The tone of a sub state.
pub open spec fn sub_tone_of(state: Seq<char>) -> Tone {
    if state == "running"@ {
        Tone::Good
    } else if state == "exited"@ || state == "dead"@ {
        Tone::Bad
    } else {
        Tone::Plain
    }
}

/// The tone of a load state.
pub fn load_tone(state: &str) -> (tone: Tone)
    ensures
        tone == load_tone_of(state@),
{
    if same(state, "loaded") {
        Tone::Good
    } else if same(state, "not-found") {
        Tone::Warning
    } else if same(state, "error") {
        Tone::Bad
    } else {
        Tone::Plain
    }
}

/// The tone of an active state.
pub fn active_tone(state: &str) -> (tone: Tone)
    ensures
        tone == active_tone_of(state@),
{
    if same(state, "active") {
        Tone::Good
    } else if same(state, "inactive") {
        Tone::Bad
    } else {
        Tone::Plain
    }
}

/// The tone of a sub state.
pub fn sub_tone(state: &str) -> (tone: Tone)
    ensures
        tone == sub_tone_of(state@),
{
    if same(state, "running") {
        Tone::Good
    } else if same(state, "exited") || same(state, "dead") {
        Tone::Bad
    } else {
        Tone::Plain
    }
}

} // verus!
