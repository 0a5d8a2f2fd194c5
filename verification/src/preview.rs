use vstd::prelude::*;
use vstd::string::*;

verus! {

/// How many lines a preview may show.
pub const PREVIEW_MAX_LINES: usize = 20;

/// A bounded text preview: at most `PREVIEW_MAX_LINES` lines, and a flag that
/// says whether the file held more.
#[derive(Clone, Debug, PartialEq, Eq)]
pub struct PreviewResult {
    pub lines: Vec<String>,
    pub truncated: bool,
}

/// What reading the head of a file produced: its first lines (possibly more
/// than the preview may show), a failure to open it, or a failure while
/// reading it.
#[derive(Clone, Debug, PartialEq, Eq)]
pub enum FileReadOutcome {
    Lines(Vec<String>),
    OpenFailed,
    ReadFailed,
}

/// Builds the preview for a read outcome: the first `PREVIEW_MAX_LINES` lines
/// with the truncation flag set exactly when more existed, or the fixed
/// one-line placeholder for a failure. Every outcome is renderable; nothing
/// here fails.
pub fn build_preview(outcome: FileReadOutcome) -> (r: PreviewResult)
    ensures
        (match outcome {
            FileReadOutcome::Lines(ls) => {
                &&& r.truncated == (ls@.len() > PREVIEW_MAX_LINES)
                &&& r.lines@ == ls@.take(
                    vstd::math::min(ls@.len() as int, PREVIEW_MAX_LINES as int),
                )
            },
            FileReadOutcome::OpenFailed => {
                &&& !r.truncated
                &&& r.lines@.len() == 1
                &&& r.lines@[0]@ == "Cannot open file"@
            },
            FileReadOutcome::ReadFailed => {
                &&& !r.truncated
                &&& r.lines@.len() == 1
                &&& r.lines@[0]@ == "Error reading file"@
            },
        }),
{
    match outcome {
        FileReadOutcome::Lines(mut ls) => {
            let truncated = ls.len() > PREVIEW_MAX_LINES;
            if truncated {
                ls.truncate(PREVIEW_MAX_LINES);
            } else {
                proof {
                    assert(ls@.take(ls@.len() as int) =~= ls@);
                }
            }
            PreviewResult { lines: ls, truncated }
        },
        FileReadOutcome::OpenFailed => {
            let mut v: Vec<String> = Vec::new();
            v.push(String::from_str("Cannot open file"));
            PreviewResult { lines: v, truncated: false }
        },
        FileReadOutcome::ReadFailed => {
            let mut v: Vec<String> = Vec::new();
            v.push(String::from_str("Error reading file"));
            PreviewResult { lines: v, truncated: false }
        },
    }
}

/// The fixed text shown in place of a preview when a directory is selected:
/// directories have no preview and the inspector is never asked for one.
pub fn directory_preview() -> (r: PreviewResult)
    ensures
        !r.truncated,
        r.lines@.len() == 1,
        r.lines@[0]@ == "Directory selected - no preview available"@,
{
    let mut v: Vec<String> = Vec::new();
    v.push(String::from_str("Directory selected - no preview available"));
    PreviewResult { lines: v, truncated: false }
}

} // verus!
