//! Agent side of a scan: the scanner's command line, and the reading of its
//! exit status and output into the outcome reported to the hub.
use vstd::prelude::*;
use crate::model::ScanCommand;

verus! {

/// What an agent reports for one scan command.
pub struct ScanOutcome {
    pub success: bool,
    pub details: String,
    pub infected_files: usize,
}

/// The text that `String::from_utf8_lossy` makes of `b`.
pub uninterp spec fn lossy_text(b: Seq<u8>) -> Seq<char>;

/// Relies on `String::from_utf8_lossy`: the bytes read as UTF-8, invalid
/// sequences replaced; the result depends on the bytes alone.
#[verifier::external_body]
fn lossy_string(b: &[u8]) -> (r: String)
    ensures
        r@ == lossy_text(b@),
{
    String::from_utf8_lossy(b).into_owned()
}

/// The scanner's command-line arguments: descriptor passing always,
/// multi-threaded scanning when recursive, then the target path.
pub open spec fn scan_arguments_of(path: Seq<char>, recursive: bool) -> Seq<Seq<char>> {
    if recursive {
        seq!["--fdpass"@, "--multiscan"@, path]
    } else {
        seq!["--fdpass"@, path]
    }
}

pub fn scan_arguments(cmd: &ScanCommand) -> (r: Vec<String>)
    ensures
        r@.map_values(|a: String| a@) == scan_arguments_of(cmd.path@, cmd.recursive),
{
    let mut r: Vec<String> = Vec::new();
    r.push(String::from_str("--fdpass"));
    if cmd.recursive {
        r.push(String::from_str("--multiscan"));
    }
    r.push(cmd.path.clone());
    assert(r@.map_values(|a: String| a@) =~= scan_arguments_of(cmd.path@, cmd.recursive));
    r
}

/// The bytes of ` FOUND`, which the scanner prints after each infected file.
pub open spec fn threat_marker() -> Seq<u8> {
    seq![32u8, 70u8, 79u8, 85u8, 78u8, 68u8]
}

pub open spec fn marker_at(b: Seq<u8>, i: int) -> bool {
    0 <= i && i + 6 <= b.len() && b.subrange(i, i + 6) == threat_marker()
}

/// Lines of `b` from position `i` on that hold the marker, where `marked`
/// says whether the marker already began in the line that `i` is in.
pub open spec fn marked_lines_from(b: Seq<u8>, i: int, marked: bool) -> nat
    decreases b.len() - i,
{
    if i >= b.len() {
        if marked {
            1
        } else {
            0
        }
    } else if b[i] == 10u8 {
        (if marked {
            1nat
        } else {
            0nat
        }) + marked_lines_from(b, i + 1, false)
    } else {
        marked_lines_from(b, i + 1, marked || marker_at(b, i))
    }
}

/// Number of lines of `b` (separated by newlines) that hold the marker.
pub open spec fn marked_lines(b: Seq<u8>) -> nat {
    marked_lines_from(b, 0, false)
}

fn marker_at_exec(b: &[u8], i: usize) -> (r: bool)
    ensures
        r == marker_at(b@, i as int),
{
    if i > b.len() || b.len() - i < 6 {
        return false;
    }
    let r = b[i] == 32u8 && b[i + 1] == 70u8 && b[i + 2] == 79u8 && b[i + 3] == 85u8
        && b[i + 4] == 78u8 && b[i + 5] == 68u8;
    assert(r == (b@.subrange(i as int, i + 6) =~= threat_marker()));
    r
}

/// Counts the lines of the scanner's output that report an infected file.
pub fn count_threat_lines(b: &[u8]) -> (r: usize)
    ensures
        r == marked_lines(b@),
{
    let mut count: usize = 0;
    let mut marked = false;
    let mut i: usize = 0;
    while i < b.len()
        invariant
            i <= b@.len(),
            count <= i,
            marked ==> count < i,
            count + marked_lines_from(b@, i as int, marked) == marked_lines(b@),
        decreases b@.len() - i,
    {
        if b[i] == 10u8 {
            if marked {
                count = count + 1;
            }
            marked = false;
        } else if !marked {
            marked = marker_at_exec(b, i);
        }
        i = i + 1;
    }
    if marked {
        count = count + 1;
    }
    count
}

/// The outcome of a scanner run with exit status `code` (none when it was
/// killed by a signal): exit 0 is clean, 1 means threats were found, anything
/// else is a failure. The threat count is the number of marker lines when the
/// exit status is 1; the details are the standard output, or the standard
/// error when the output is empty.
pub fn interpret_scan_output(code: Option<i32>, stdout: &[u8], stderr: &[u8]) -> (r: ScanOutcome)
    ensures
        r.success == (code == Some(0i32) || code == Some(1i32)),
        r.infected_files == (if code == Some(1i32) { marked_lines(stdout@) } else { 0 }),
        stdout@.len() > 0 ==> r.details@ == lossy_text(stdout@),
        stdout@.len() == 0 ==> r.details@ == lossy_text(stderr@),
{
    let success = match code {
        Some(c) => c == 0 || c == 1,
        None => false,
    };
    let infected_files: usize = match code {
        Some(c) => if c == 1 {
            count_threat_lines(stdout)
        } else {
            0
        },
        None => 0,
    };
    let details = if stdout.len() > 0 {
        lossy_string(stdout)
    } else {
        lossy_string(stderr)
    };
    ScanOutcome { success, details, infected_files }
}

/// The outcome when the scanner could not be started at all.
pub fn launch_failure(reason: &str) -> (r: ScanOutcome)
    ensures
        !r.success,
        r.infected_files == 0,
        r.details@ == "Failed to execute clamdscan: "@ + reason@,
{
    ScanOutcome {
        success: false,
        details: String::from_str("Failed to execute clamdscan: ").concat(reason),
        infected_files: 0,
    }
}

} // verus!
