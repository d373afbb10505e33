//! The argument list handed to the external video-trimming process.

use vstd::prelude::*;
use vstd::string::StringExecFns;

verus! {

/// The argument list for trimming a time range out of a video: seek to the
/// start time, stop at the end time, read the input, copy the streams
/// without re-encoding, overwrite the output.
pub fn trim_args(input_path: &str, output_path: &str, start_time: &str, end_time: &str) -> (r: Vec<
    String,
>)
    ensures
        r@.len() == 10,
        r@[0]@ == "-ss"@,
        r@[1]@ == start_time@,
        r@[2]@ == "-to"@,
        r@[3]@ == end_time@,
        r@[4]@ == "-i"@,
        r@[5]@ == input_path@,
        r@[6]@ == "-c"@,
        r@[7]@ == "copy"@,
        r@[8]@ == "-y"@,
        r@[9]@ == output_path@,
{
    let mut r: Vec<String> = Vec::new();
    r.push(String::from_str("-ss"));
    r.push(start_time.to_owned());
    r.push(String::from_str("-to"));
    r.push(end_time.to_owned());
    r.push(String::from_str("-i"));
    r.push(input_path.to_owned());
    r.push(String::from_str("-c"));
    r.push(String::from_str("copy"));
    r.push(String::from_str("-y"));
    r.push(output_path.to_owned());
    r
}

} // verus!
