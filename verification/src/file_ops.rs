//! File transfer and shell passthrough: the argument strings of the
//! transfer commands and the predicates that read their outputs.

use vstd::prelude::*;
use vstd::string::*;
use crate::text::contains_seq;
use crate::text::str_contains;

verus! {

/// The argument string that copies a local file onto a device.
pub fn push_file_command(device: &str, local_path: &str, remote_path: &str) -> (r: String)
    ensures
        r@ == "-s "@ + device@ + " push "@ + local_path@ + " "@ + remote_path@,
{
    let mut s = "-s ".to_owned();
    s.append(device);
    s.append(" push ");
    s.append(local_path);
    s.append(" ");
    s.append(remote_path);
    s
}

/// The argument string that copies a device file to the host.
pub fn pull_file_command(device: &str, remote_path: &str, local_path: &str) -> (r: String)
    ensures
        r@ == "-s "@ + device@ + " pull "@ + remote_path@ + " "@ + local_path@,
{
    let mut s = "-s ".to_owned();
    s.append(device);
    s.append(" pull ");
    s.append(remote_path);
    s.append(" ");
    s.append(local_path);
    s
}

/// The argument string that runs one shell command on a device.
pub fn shell_command_line(device: &str, command: &str) -> (r: String)
    ensures
        r@ == "-s "@ + device@ + " shell "@ + command@,
{
    let mut s = "-s ".to_owned();
    s.append(device);
    s.append(" shell ");
    s.append(command);
    s
}

/// The argument string that captures a screenshot as image bytes.
pub fn screenshot_command(device: &str) -> (r: String)
    ensures
        r@ == "-s "@ + device@ + " exec-out screencap -p"@,
{
    let mut s = "-s ".to_owned();
    s.append(device);
    s.append(" exec-out screencap -p");
    s
}

/// Whether a push output reports a completed transfer.
pub fn push_output_ok(output: &str) -> (r: bool)
    ensures
        r == (contains_seq(output@, "pushed"@) || contains_seq(output@, "transferred"@)),
{
    str_contains(output, "pushed") || str_contains(output, "transferred")
}

/// Whether a pull output reports a completed transfer.
pub fn pull_output_ok(output: &str) -> (r: bool)
    ensures
        r == (contains_seq(output@, "pulled"@) || contains_seq(output@, "transferred"@)),
{
    str_contains(output, "pulled") || str_contains(output, "transferred")
}

} // verus!
