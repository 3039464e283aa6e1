//! Input simulation: touch, key, text and raw event injection, as
//! argument strings.

use vstd::prelude::*;
use vstd::string::*;
use crate::text::append_i32_dec;
use crate::text::append_u64_dec;
use crate::text::dec_str_of;
use crate::text::int_str_of;

verus! {

/// Where a simulated event claims to come from.
#[derive(Debug, Clone, Copy, PartialEq, Eq)]
pub enum InputSource {
    Touchscreen,
    Keyboard,
    Mouse,
    Joystick,
}

/// A raw touch event: a position and optional pressure and size readings.
#[derive(Debug, Clone, PartialEq, Eq)]
pub struct TouchEvent {
    pub x: i32,
    pub y: i32,
    pub pressure: Option<i32>,
    pub size: Option<i32>,
}

/// The name under which each input source is addressed.
pub open spec fn source_name_of(source: InputSource) -> Seq<char> {
    match source {
        InputSource::Touchscreen => "touchscreen"@,
        InputSource::Keyboard => "keyboard"@,
        InputSource::Mouse => "mouse"@,
        InputSource::Joystick => "joystick"@,
    }
}

pub fn source_name(source: InputSource) -> (r: &'static str)
    ensures
        r@ == source_name_of(source),
{
    match source {
        InputSource::Touchscreen => "touchscreen",
        InputSource::Keyboard => "keyboard",
        InputSource::Mouse => "mouse",
        InputSource::Joystick => "joystick",
    }
}

/// The argument string that sends one key code.
pub fn send_keyevent_command(device: &str, keycode: i32) -> (r: String)
    ensures
        r@ == "-s "@ + device@ + " shell input keyevent "@ + int_str_of(keycode as int),
{
    let mut s = "-s ".to_owned();
    s.append(device);
    s.append(" shell input keyevent ");
    append_i32_dec(&mut s, keycode);
    s
}

/// The argument string that types a text.
pub fn send_text_command(device: &str, text: &str) -> (r: String)
    ensures
        r@ == "-s "@ + device@ + " shell input text "@ + text@,
{
    let mut s = "-s ".to_owned();
    s.append(device);
    s.append(" shell input text ");
    s.append(text);
    s
}

/// The argument string that taps one point.
pub fn tap_command(device: &str, x: i32, y: i32) -> (r: String)
    ensures
        r@ == "-s "@ + device@ + " shell input tap "@ + int_str_of(x as int) + " "@ + int_str_of(
            y as int,
        ),
{
    let mut s = "-s ".to_owned();
    s.append(device);
    s.append(" shell input tap ");
    append_i32_dec(&mut s, x);
    s.append(" ");
    append_i32_dec(&mut s, y);
    s
}

/// The swipe argument string: two points, and a duration only when one
/// is given.
pub open spec fn swipe_command_of(
    device: Seq<char>,
    x1: int,
    y1: int,
    x2: int,
    y2: int,
    duration_ms: Option<u32>,
) -> Seq<char> {
    let head = "-s "@ + device + " shell input swipe "@ + int_str_of(x1) + " "@ + int_str_of(y1)
        + " "@ + int_str_of(x2) + " "@ + int_str_of(y2);
    match duration_ms {
        Some(d) => head + " "@ + dec_str_of(d as int),
        None => head,
    }
}

pub fn swipe_command(
    device: &str,
    x1: i32,
    y1: i32,
    x2: i32,
    y2: i32,
    duration_ms: Option<u32>,
) -> (r: String)
    ensures
        r@ == swipe_command_of(device@, x1 as int, y1 as int, x2 as int, y2 as int, duration_ms),
{
    let mut s = "-s ".to_owned();
    s.append(device);
    s.append(" shell input swipe ");
    append_i32_dec(&mut s, x1);
    s.append(" ");
    append_i32_dec(&mut s, y1);
    s.append(" ");
    append_i32_dec(&mut s, x2);
    s.append(" ");
    append_i32_dec(&mut s, y2);
    match duration_ms {
        Some(d) => {
            s.append(" ");
            append_u64_dec(&mut s, d as u64);
        },
        None => {},
    }
    s
}

/// The raw-event argument string: the source name, the position, then
/// pressure and size readings where the event carries them.
pub open spec fn touch_event_command_of(
    device: Seq<char>,
    event_x: int,
    event_y: int,
    pressure: Option<i32>,
    size: Option<i32>,
    source: InputSource,
) -> Seq<char> {
    let head = "-s "@ + device + " shell sendevent "@ + source_name_of(source) + " "@ + int_str_of(
        event_x,
    ) + " "@ + int_str_of(event_y);
    let with_pressure = match pressure {
        Some(p) => head + " "@ + int_str_of(p as int),
        None => head,
    };
    match size {
        Some(z) => with_pressure + " "@ + int_str_of(z as int),
        None => with_pressure,
    }
}

pub fn send_touch_event_command(device: &str, event: &TouchEvent, source: InputSource) -> (r:
    String)
    ensures
        r@ == touch_event_command_of(
            device@,
            event.x as int,
            event.y as int,
            event.pressure,
            event.size,
            source,
        ),
{
    let mut s = "-s ".to_owned();
    s.append(device);
    s.append(" shell sendevent ");
    s.append(source_name(source));
    s.append(" ");
    append_i32_dec(&mut s, event.x);
    s.append(" ");
    append_i32_dec(&mut s, event.y);
    match event.pressure {
        Some(p) => {
            s.append(" ");
            append_i32_dec(&mut s, p);
        },
        None => {},
    }
    match event.size {
        Some(z) => {
            s.append(" ");
            append_i32_dec(&mut s, z);
        },
        None => {},
    }
    s
}

} // verus!
