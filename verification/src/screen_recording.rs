//! Screen recording: the recording options and the argument string they
//! shape.

use vstd::prelude::*;
use vstd::string::*;
use crate::text::append_u64_dec;
use crate::text::contains_seq;
use crate::text::dec_str_of;
use crate::text::str_contains;

verus! {

/// How a screen recording is shaped: bit rate in megabits per second,
/// frame size, time limit in seconds, and the flag options.
#[derive(Debug, Clone, Copy, PartialEq, Eq)]
pub struct ScreenRecordOptions {
    pub bit_rate: Option<u32>,
    pub resolution: Option<(u32, u32)>,
    pub time_limit: Option<u32>,
    pub rotate: Option<bool>,
    pub verbose: Option<bool>,
    pub bugreport: Option<bool>,
}

impl Default for ScreenRecordOptions {
    /// The default shape: everything left to the recorder.
    fn default() -> (r: ScreenRecordOptions)
        ensures
            r.bit_rate is None,
            r.resolution is None,
            r.time_limit is None,
            r.rotate is None,
            r.verbose is None,
            r.bugreport is None,
    {
        ScreenRecordOptions {
            bit_rate: None,
            resolution: None,
            time_limit: None,
            rotate: None,
            verbose: None,
            bugreport: None,
        }
    }
}

/// The recording argument string: each present option in its fixed
/// place, the bit rate scaled from megabits to bits, then the output
/// path.
pub open spec fn screen_record_command_of(
    device: Seq<char>,
    options: ScreenRecordOptions,
    output_path: Seq<char>,
) -> Seq<char> {
    let a = "-s "@ + device + " shell screenrecord"@;
    let b = match options.bit_rate {
        Some(rate) => a + " --bit-rate "@ + dec_str_of(rate as int * 1000000),
        None => a,
    };
    let c = match options.resolution {
        Some((w, h)) => b + " --size "@ + dec_str_of(w as int) + "x"@ + dec_str_of(h as int),
        None => b,
    };
    let d = match options.time_limit {
        Some(t) => c + " --time-limit "@ + dec_str_of(t as int),
        None => c,
    };
    let e = if options.rotate == Some(true) {
        d + " --rotate"@
    } else {
        d
    };
    let f = if options.verbose == Some(true) {
        e + " --verbose"@
    } else {
        e
    };
    let g = if options.bugreport == Some(true) {
        f + " --bugreport"@
    } else {
        f
    };
    g + " "@ + output_path
}

/// Build the recording argument string.  A bit rate above 4294 megabits
/// would not fit the scaled field and is not accepted.
pub fn screen_record_command(device: &str, output_path: &str, options: &ScreenRecordOptions) -> (r:
    String)
    requires
        options.bit_rate matches Some(rate) ==> rate <= 4294,
    ensures
        r@ == screen_record_command_of(device@, *options, output_path@),
{
    let mut s = "-s ".to_owned();
    s.append(device);
    s.append(" shell screenrecord");
    match options.bit_rate {
        Some(rate) => {
            s.append(" --bit-rate ");
            append_u64_dec(&mut s, (rate * 1000000) as u64);
        },
        None => {},
    }
    match options.resolution {
        Some((w, h)) => {
            s.append(" --size ");
            append_u64_dec(&mut s, w as u64);
            s.append("x");
            append_u64_dec(&mut s, h as u64);
        },
        None => {},
    }
    match options.time_limit {
        Some(t) => {
            s.append(" --time-limit ");
            append_u64_dec(&mut s, t as u64);
        },
        None => {},
    }
    let rotate = match options.rotate {
        Some(b) => b,
        None => false,
    };
    if rotate {
        s.append(" --rotate");
    }
    let verbose = match options.verbose {
        Some(b) => b,
        None => false,
    };
    if verbose {
        s.append(" --verbose");
    }
    let bugreport = match options.bugreport {
        Some(b) => b,
        None => false,
    };
    if bugreport {
        s.append(" --bugreport");
    }
    s.append(" ");
    s.append(output_path);
    s
}

/// Whether a recording output is acceptable: the recorder prints nothing
/// on success, or reports the recording as started.
pub fn record_output_ok(output: &str) -> (r: bool)
    ensures
        r == (output@.len() == 0 || contains_seq(output@, "started"@)),
{
    output.unicode_len() == 0 || str_contains(output, "started")
}

} // verus!
