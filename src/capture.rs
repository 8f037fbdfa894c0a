//! Decisions around the native capture tool: the guard that admits one
//! capture at a time, the tool's arguments, and how its exit is read.
//! Running the tool and touching files is left to the caller.

use vstd::prelude::*;
use crate::text::{contains_text, has_infix};
use crate::utils::AppResult;

verus! {

/// How the capture tool is asked to capture.
#[derive(Debug, Clone, Copy, PartialEq, Eq, Structural)]
pub enum CaptureMode {
    /// The user drags out a region.
    Interactive,
    /// Every display, without asking.
    Fullscreen,
    /// The user picks a window.
    Window,
}

pub open spec fn already_running_error() -> Seq<char> {
    "Another screenshot capture is already in progress"@
}

pub open spec fn permission_not_granted_error() -> Seq<char> {
    "Screen Recording permission not granted"@
}

/// What a capture request reports when the permission probe refused it for
/// `reason`.
pub open spec fn permission_check_failure_text(reason: Seq<char>) -> Seq<char> {
    "Permission check failed: "@ + reason
        + ". Please ensure Screen Recording permission is granted in System Settings > Privacy & Security > Screen Recording."@
}

pub open spec fn permission_required_error() -> Seq<char> {
    "Screen Recording permission required. Please grant permission in System Settings > Privacy & Security > Screen Recording and restart the app."@
}

pub open spec fn cancelled_error() -> Seq<char> {
    "Screenshot was cancelled or failed"@
}

/// Process-wide flag that serialises captures. A second request while one
/// is under way is refused at once; nothing waits.
#[derive(Debug)]
pub struct CaptureGuard {
    busy: bool,
}

/// Whether a guard with flag `busy` admits a capture while the tool is, or
/// is not, already running.
pub open spec fn admits(busy: bool, tool_running: bool) -> bool {
    !busy && !tool_running
}

/// What one request for the guard does: it is granted (`granted`) exactly
/// when the guard admits it, a grant leaves the guard held, and a refusal
/// leaves the flag as it was.
pub open spec fn begin_effect(before: bool, tool_running: bool, after: bool, granted: bool) -> bool {
    &&& granted == admits(before, tool_running)
    &&& granted ==> after
    &&& !granted ==> after == before
}

impl CaptureGuard {
    pub closed spec fn spec_busy(&self) -> bool {
        self.busy
    }

    /// A guard with no capture under way.
    pub fn new() -> (r: Self)
        ensures
            !r.spec_busy(),
    {
        CaptureGuard { busy: false }
    }

    /// Whether a capture holds the guard.
    pub fn is_busy(&self) -> (r: bool)
        ensures
            r == self.spec_busy(),
    {
        self.busy
    }

    /// Claims the guard for one capture, unless one already holds it or the
    /// capture tool is running already (`tool_running`). A refusal leaves
    /// the guard as it was.
    pub fn try_begin(&mut self, tool_running: bool) -> (r: AppResult<()>)
        ensures
            begin_effect(old(self).spec_busy(), tool_running, final(self).spec_busy(), r is Ok),
            r matches Err(e) ==> e@ == already_running_error(),
    {
        if self.busy || tool_running {
            return Err(String::from_str("Another screenshot capture is already in progress"));
        }
        self.busy = true;
        Ok(())
    }

    /// Releases the guard once the capture has returned, however it ended.
    pub fn finish(&mut self)
        ensures
            !final(self).spec_busy(),
    {
        self.busy = false;
    }
}

/// Two requests in a row, with no release between them: once the first is
/// granted, the second is refused, whatever the tool's state, and the guard
/// stays held by the first.
pub proof fn lemma_second_capture_refused(
    start: bool,
    first_tool_running: bool,
    held: bool,
    second_tool_running: bool,
    end: bool,
    second_granted: bool,
)
    requires
        begin_effect(start, first_tool_running, held, true),
        begin_effect(held, second_tool_running, end, second_granted),
    ensures
        !second_granted,
        end,
{
}

/// Text in which the capture tool reports missing screen-recording rights.
pub open spec fn mentions_permission_problem(text: Seq<char>) -> bool {
    has_infix(text, "permission"@) || has_infix(text, "denied"@) || has_infix(text, "not authorized"@)
}

/// Whether `text` reports missing screen-recording rights.
pub fn reports_permission_problem(text: &str) -> (r: bool)
    ensures
        r == mentions_permission_problem(text@),
{
    contains_text(text, "permission") || contains_text(text, "denied") || contains_text(
        text,
        "not authorized",
    )
}

/// Reads what a silent probe capture printed (or, where it could not be
/// started, the error's text): it fails only where that text reports
/// missing screen-recording rights.
pub fn permission_probe_verdict(probe_text: &str) -> (r: AppResult<()>)
    ensures
        r is Err <==> mentions_permission_problem(probe_text@),
        r matches Err(e) ==> e@ == permission_not_granted_error(),
{
    if reports_permission_problem(probe_text) {
        Err(String::from_str("Screen Recording permission not granted"))
    } else {
        Ok(())
    }
}

/// The message for a capture request that the permission probe refused with
/// `reason`, pointing the user to the setting to change.
pub fn permission_check_failure(reason: &str) -> (r: String)
    ensures
        r@ == permission_check_failure_text(reason@),
{
    let mut msg = String::from_str("Permission check failed: ");
    msg.append(reason);
    msg.append(
        ". Please ensure Screen Recording permission is granted in System Settings > Privacy & Security > Screen Recording.",
    );
    msg
}

/// The capture tool's arguments for `mode`, writing to `path` without a
/// shutter sound.
pub open spec fn tool_args(mode: CaptureMode, path: Seq<char>) -> Seq<Seq<char>> {
    match mode {
        CaptureMode::Interactive => seq!["-i"@, "-x"@, path],
        CaptureMode::Window => seq!["-w"@, "-x"@, path],
        CaptureMode::Fullscreen => seq!["-x"@, path],
    }
}

/// The arguments that run the capture tool in `mode` for `path`.
pub fn capture_tool_args(mode: CaptureMode, path: &str) -> (r: Vec<String>)
    ensures
        r@.len() == tool_args(mode, path@).len(),
        forall|i: int| 0 <= i < r@.len() ==> #[trigger] r@[i]@ == tool_args(mode, path@)[i],
{
    match mode {
        CaptureMode::Interactive => vec![
            String::from_str("-i"),
            String::from_str("-x"),
            String::from_str(path),
        ],
        CaptureMode::Window => vec![
            String::from_str("-w"),
            String::from_str("-x"),
            String::from_str(path),
        ],
        CaptureMode::Fullscreen => vec![String::from_str("-x"), String::from_str(path)],
    }
}

/// The capture tool's arguments for a silent probe of the whole screen to
/// `path`, taken at once.
pub open spec fn probe_args(path: Seq<char>) -> Seq<Seq<char>> {
    seq!["-x"@, "-T"@, "0"@, path]
}

/// The arguments that run the permission probe, writing to `path`.
pub fn probe_tool_args(path: &str) -> (r: Vec<String>)
    ensures
        r@.len() == probe_args(path@).len(),
        forall|i: int| 0 <= i < r@.len() ==> #[trigger] r@[i]@ == probe_args(path@)[i],
{
    vec![
        String::from_str("-x"),
        String::from_str("-T"),
        String::from_str("0"),
        String::from_str(path),
    ]
}

/// How a finished run of the capture tool is read: `result` is what the
/// caller gets, and `remove_file` asks for the partial output to go.
#[derive(Debug)]
pub struct CaptureOutcome {
    pub result: AppResult<String>,
    pub remove_file: bool,
}

/// Reads the tool's exit. Success needs both a zero exit and the output file
/// at `path`; a failed exit whose output mentions missing rights is reported
/// as such, anything else as cancelled. A failed exit that left a file has
/// it removed.
pub fn capture_outcome(exited_ok: bool, file_exists: bool, stderr: &str, path: String) -> (r:
    CaptureOutcome)
    ensures
        r.remove_file == (!exited_ok && file_exists),
        exited_ok && file_exists ==> r.result == Ok::<String, String>(path),
        !exited_ok && mentions_permission_problem(stderr@) ==> (r.result matches Err(e) && e@
            == permission_required_error()),
        (!exited_ok && !mentions_permission_problem(stderr@)) || (exited_ok && !file_exists) ==> (
        r.result matches Err(e) && e@ == cancelled_error()),
{
    if !exited_ok {
        let result = if reports_permission_problem(stderr) {
            Err(
                String::from_str(
                    "Screen Recording permission required. Please grant permission in System Settings > Privacy & Security > Screen Recording and restart the app.",
                ),
            )
        } else {
            Err(String::from_str("Screenshot was cancelled or failed"))
        };
        return CaptureOutcome { result, remove_file: file_exists };
    }
    if file_exists {
        CaptureOutcome { result: Ok(path), remove_file: false }
    } else {
        CaptureOutcome {
            result: Err(String::from_str("Screenshot was cancelled or failed")),
            remove_file: false,
        }
    }
}

} // verus!
