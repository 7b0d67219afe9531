//! Raw accelerometer readings and the text they are read from.
//!
//! Each axis is exposed as a file holding one signed decimal integer and a
//! trailing newline. Text that is not such a number, or whose number does
//! not fit in an `i32`, reads as `0`.

use vstd::prelude::*;
use vstd::string::StrSliceExecFns;
use crate::decimal::{parse_decimal_i32, parse_i32};
use crate::text::{chars_of, contains_text, occurs_in};

verus! {

/// One sample of the two axes that matter for rotation.
#[derive(Clone, Copy, Debug, PartialEq, Eq, Structural)]
pub struct AxisReading {
    pub x: i32,
    pub y: i32,
}

/// The axes that an accelerometer exposes, one file each.
#[derive(Clone, Copy, Debug, PartialEq, Eq, Structural)]
pub enum Axis {
    X,
    Y,
    Z,
}

/// The axis whose raw values the file at `path` holds, told by its name.
pub open spec fn axis_of(path: Seq<char>) -> Option<Axis> {
    if occurs_in("x_raw"@, path) {
        Some(Axis::X)
    } else if occurs_in("y_raw"@, path) {
        Some(Axis::Y)
    } else if occurs_in("z_raw"@, path) {
        Some(Axis::Z)
    } else {
        None
    }
}

/// Tells which axis a sensor file belongs to, or `None` for a file that is
/// no raw axis file.
pub fn axis_of_path(path: &str) -> (axis: Option<Axis>)
    ensures
        axis == axis_of(path@),
{
    if contains_text(path, "x_raw") {
        Some(Axis::X)
    } else if contains_text(path, "y_raw") {
        Some(Axis::Y)
    } else if contains_text(path, "z_raw") {
        Some(Axis::Z)
    } else {
        None
    }
}

/// `s` without the newlines at its end.
pub open spec fn trim_newlines(s: Seq<char>) -> Seq<char>
    decreases s.len(),
{
    if s.len() > 0 && s.last() == '\n' {
        trim_newlines(s.drop_last())
    } else {
        s
    }
}

/// The value of an axis whose file holds `raw`: the number in front of
/// the trailing newlines, or `0` where there is none that an `i32` holds.
pub open spec fn axis_value(raw: Seq<char>) -> i32 {
    match parse_decimal_i32(trim_newlines(raw)) {
        Some(v) => v,
        None => 0,
    }
}

/// The length of `chars` once the newlines at its end are dropped.
fn trimmed_len(chars: &Vec<char>) -> (n: usize)
    ensures
        n <= chars.len(),
        chars@.take(n as int) == trim_newlines(chars@),
{
    let mut n: usize = chars.len();
    assert(chars@.take(n as int) =~= chars@);
    while n > 0 && chars[n - 1] == '\n'
        invariant
            n <= chars.len(),
            trim_newlines(chars@.take(n as int)) == trim_newlines(chars@),
        decreases n,
    {
        assert(chars@.take(n as int).drop_last() =~= chars@.take(n - 1));
        n -= 1;
    }
    n
}

/// Parses the content of one axis file.
pub fn parse_axis(raw: &str) -> (v: i32)
    ensures
        v == axis_value(raw@),
{
    let chars = chars_of(raw);
    let end = trimmed_len(&chars);
    let trimmed = raw.substring_char(0, end);
    assert(trimmed@ =~= trim_newlines(raw@));
    match parse_i32(trimmed) {
        Some(v) => v,
        None => 0,
    }
}

/// The value of an axis whose file was read with the given outcome: a file
/// that could not be read counts like one without a number in it.
pub open spec fn axis_value_of(content: Option<Seq<char>>) -> i32 {
    match content {
        Some(raw) => axis_value(raw),
        None => 0,
    }
}

/// The value of an axis, given its file's content or `None` where the file
/// could not be read.
pub fn read_axis(content: &Option<String>) -> (v: i32)
    ensures
        v == axis_value_of(content.deep_view()),
{
    match content {
        Some(raw) => parse_axis(raw.as_str()),
        None => 0,
    }
}

impl AxisReading {
    /// Reads a sample from the contents of the two axis files.
    pub fn from_raw(x_raw: &str, y_raw: &str) -> (r: AxisReading)
        ensures
            r.x == axis_value(x_raw@),
            r.y == axis_value(y_raw@),
    {
        AxisReading { x: parse_axis(x_raw), y: parse_axis(y_raw) }
    }

    /// Reads a sample from what reading the two axis files gave. An axis
    /// whose file could not be read is taken as `0` for this sample.
    pub fn from_files(x_file: &Option<String>, y_file: &Option<String>) -> (r: AxisReading)
        ensures
            r.x == axis_value_of(x_file.deep_view()),
            r.y == axis_value_of(y_file.deep_view()),
    {
        AxisReading { x: read_axis(x_file), y: read_axis(y_file) }
    }
}

} // verus!
