//! The status record of an upload, shared between the task that performs it
//! and the display that shows it, with the transitions that move it along
//! `Idle -> Counting -> Uploading -> Done | Failed`.
use vstd::prelude::*;

use crate::text::{decimal, push_decimal};

verus! {

/// Where an upload stands.
#[derive(Clone, Copy, Debug, PartialEq, Eq, Structural)]
pub enum Phase {
    /// Nothing chosen yet.
    Idle,
    /// A start was accepted; the files are being counted.
    Counting,
    /// A folder was chosen and counted; no upload is running.
    Ready,
    /// The transfer tool is running.
    Uploading,
    /// The tool reported success.
    Done,
    /// The tool failed, or could not be started.
    Failed,
}

/// How a run of the transfer tool ended.
pub enum ProcessOutcome {
    /// The tool ran to the end; `stderr` is what it wrote to its error stream
    /// (empty where it was not captured).
    Exited { success: bool, stderr: String },
    /// The tool could not be started.
    LaunchFailed { error: String },
}

/// Whether the run counts as a successful upload: only a zero exit status does.
pub open spec fn outcome_succeeded(o: ProcessOutcome) -> bool {
    o matches ProcessOutcome::Exited { success: true, .. }
}

pub open spec fn ready_message() -> Seq<char> {
    "Ready to upload"@
}

pub open spec fn counting_message() -> Seq<char> {
    "Counting files..."@
}

pub open spec fn uploading_message(total: nat) -> Seq<char> {
    "Uploading "@ + decimal(total) + " files..."@
}

pub open spec fn selection_message(total: nat) -> Seq<char> {
    "Selected folder contains "@ + decimal(total) + " files"@
}

pub open spec fn success_message(total: nat, dest: Seq<char>) -> Seq<char> {
    "Successfully uploaded "@ + decimal(total) + " files to "@ + dest
}

/// Failure of a run that exited: names the destination, and adds the tool's
/// error text when there is any.
pub open spec fn failure_message(dest: Seq<char>, detail: Seq<char>) -> Seq<char> {
    if detail.len() == 0 {
        "Upload to "@ + dest + " failed"@
    } else {
        "Upload to "@ + dest + " failed: "@ + detail
    }
}

pub open spec fn launch_failure_message(dest: Seq<char>, error: Seq<char>) -> Seq<char> {
    "Failed to run rclone for "@ + dest + ": "@ + error
}

/// The final message for a run of `total` files to `dest` that ended as `o`.
pub open spec fn outcome_message(total: nat, dest: Seq<char>, o: ProcessOutcome) -> Seq<char> {
    match o {
        ProcessOutcome::Exited { success, stderr } => if success {
            success_message(total, dest)
        } else {
            failure_message(dest, stderr@)
        },
        ProcessOutcome::LaunchFailed { error } => launch_failure_message(dest, error@),
    }
}

/// Builds the final message for a run; `Ok` exactly when the run succeeded.
pub fn report_outcome(total: u64, dest: &String, outcome: &ProcessOutcome) -> (r: Result<
    String,
    String,
>)
    ensures
        r is Ok == outcome_succeeded(*outcome),
        match r {
            Ok(m) => m@ == outcome_message(total as nat, dest@, *outcome),
            Err(m) => m@ == outcome_message(total as nat, dest@, *outcome),
        },
{
    match outcome {
        ProcessOutcome::Exited { success, stderr } => {
            if *success {
                let mut m = String::from_str("Successfully uploaded ");
                push_decimal(&mut m, total);
                m.append(" files to ");
                m.append(dest.as_str());
                proof {
                    reveal_strlit("Successfully uploaded ");
                    reveal_strlit(" files to ");
                    assert(m@ =~= success_message(total as nat, dest@));
                }
                Ok(m)
            } else {
                let mut m = String::from_str("Upload to ");
                m.append(dest.as_str());
                if stderr.as_str().is_empty() {
                    m.append(" failed");
                } else {
                    m.append(" failed: ");
                    m.append(stderr.as_str());
                }
                proof {
                    reveal_strlit("Upload to ");
                    reveal_strlit(" failed");
                    reveal_strlit(" failed: ");
                    assert(m@ =~= failure_message(dest@, stderr@));
                }
                Err(m)
            }
        },
        ProcessOutcome::LaunchFailed { error } => {
            let mut m = String::from_str("Failed to run rclone for ");
            m.append(dest.as_str());
            m.append(": ");
            m.append(error.as_str());
            proof {
                reveal_strlit("Failed to run rclone for ");
                reveal_strlit(": ");
                assert(m@ =~= launch_failure_message(dest@, error@));
            }
            Err(m)
        },
    }
}

/// The status record as the display sees it.
pub struct UploadStateView {
    pub total_files: nat,
    pub processed_files: nat,
    pub current_file: Seq<char>,
    pub is_uploading: bool,
    pub status_message: Seq<char>,
    pub phase: Phase,
}

/// The status of the current or last upload.
pub struct UploadState {
    total_files: u64,
    processed_files: u64,
    current_file: String,
    is_uploading: bool,
    status_message: String,
    phase: Phase,
}

impl View for UploadState {
    type V = UploadStateView;

    closed spec fn view(&self) -> UploadStateView {
        UploadStateView {
            total_files: self.total_files as nat,
            processed_files: self.processed_files as nat,
            current_file: self.current_file@,
            is_uploading: self.is_uploading,
            status_message: self.status_message@,
            phase: self.phase,
        }
    }
}

/// Whether the record's parts agree with each other: progress never passes
/// the total, the busy flag is set exactly while counting or uploading, and a
/// busy record always shows one of the two progress messages.
pub open spec fn state_wf(v: UploadStateView) -> bool {
    &&& v.processed_files <= v.total_files
    &&& v.is_uploading == (v.phase is Counting || v.phase is Uploading)
    &&& v.phase is Idle ==> v.total_files == 0
    &&& v.phase is Counting ==> v.total_files == 0 && v.status_message == counting_message()
    &&& v.phase is Uploading ==> v.status_message == uploading_message(v.total_files)
}

/// A fresh record: nothing counted, nothing running.
pub open spec fn initial_state() -> UploadStateView {
    UploadStateView {
        total_files: 0,
        processed_files: 0,
        current_file: Seq::empty(),
        is_uploading: false,
        status_message: ready_message(),
        phase: Phase::Idle,
    }
}

/// A folder holding `total` files was chosen; ignored while busy.
pub open spec fn after_selection(v: UploadStateView, total: nat) -> Option<UploadStateView> {
    if v.is_uploading {
        None
    } else {
        Some(
            UploadStateView {
                total_files: total,
                processed_files: 0,
                status_message: selection_message(total),
                phase: Phase::Ready,
                ..v
            },
        )
    }
}

/// A start was requested; refused while an upload is in progress.
pub open spec fn after_start(v: UploadStateView) -> Option<UploadStateView> {
    if v.is_uploading {
        None
    } else {
        Some(
            UploadStateView {
                total_files: 0,
                processed_files: 0,
                is_uploading: true,
                status_message: counting_message(),
                phase: Phase::Counting,
                ..v
            },
        )
    }
}

/// Counting found `total` files; applies only while counting.
pub open spec fn after_count(v: UploadStateView, total: nat) -> Option<UploadStateView> {
    if v.phase is Counting {
        Some(
            UploadStateView {
                total_files: total,
                processed_files: 0,
                status_message: uploading_message(total),
                phase: Phase::Uploading,
                ..v
            },
        )
    } else {
        None
    }
}

/// The tool's run to `dest` ended as `o`; applies only while uploading.
pub open spec fn after_finish(v: UploadStateView, dest: Seq<char>, o: ProcessOutcome) -> Option<
    UploadStateView,
> {
    if v.phase is Uploading {
        Some(
            UploadStateView {
                processed_files: if outcome_succeeded(o) {
                    v.total_files
                } else {
                    v.processed_files
                },
                is_uploading: false,
                status_message: outcome_message(v.total_files, dest, o),
                phase: if outcome_succeeded(o) {
                    Phase::Done
                } else {
                    Phase::Failed
                },
                ..v
            },
        )
    } else {
        None
    }
}

/// The state after a transition: the new one if it applied, else the old.
pub open spec fn applied(v: UploadStateView, next: Option<UploadStateView>) -> UploadStateView {
    match next {
        Some(w) => w,
        None => v,
    }
}

fn counting_text() -> (r: String)
    ensures
        r@ == counting_message(),
{
    String::from_str("Counting files...")
}

fn count_text(prefix: &str, total: u64, suffix: &str) -> (r: String)
    ensures
        r@ == prefix@ + decimal(total as nat) + suffix@,
{
    let mut m = String::from_str(prefix);
    push_decimal(&mut m, total);
    m.append(suffix);
    m
}

impl UploadState {
    /// A fresh record, ready for a first upload.
    pub fn new() -> (r: UploadState)
        ensures
            r@ == initial_state(),
    {
        let r = UploadState {
            total_files: 0,
            processed_files: 0,
            current_file: String::new(),
            is_uploading: false,
            status_message: String::from_str("Ready to upload"),
            phase: Phase::Idle,
        };
        assert(r@.current_file =~= Seq::<char>::empty());
        r
    }

    /// Records that a folder holding `total` files was chosen. Returns
    /// whether the record changed: it does not while an upload is running.
    pub fn select_folder(&mut self, total: u64) -> (r: bool)
        ensures
            r == after_selection(old(self)@, total as nat) is Some,
            final(self)@ == applied(old(self)@, after_selection(old(self)@, total as nat)),
    {
        if self.is_uploading {
            return false;
        }
        let m = count_text("Selected folder contains ", total, " files");
        proof {
            reveal_strlit("Selected folder contains ");
            reveal_strlit(" files");
            assert(m@ =~= selection_message(total as nat));
        }
        self.total_files = total;
        self.processed_files = 0;
        self.status_message = m;
        self.phase = Phase::Ready;
        true
    }

    /// Accepts a request to start an upload, unless one is already running.
    /// On acceptance the record is busy at once, before any work is done, so
    /// a second request made meanwhile is refused.
    pub fn request_start(&mut self) -> (r: bool)
        ensures
            r == !old(self)@.is_uploading,
            r == after_start(old(self)@) is Some,
            final(self)@ == applied(old(self)@, after_start(old(self)@)),
    {
        if self.is_uploading {
            return false;
        }
        self.total_files = 0;
        self.processed_files = 0;
        self.is_uploading = true;
        self.status_message = counting_text();
        self.phase = Phase::Counting;
        true
    }

    /// Records the file count and moves on to uploading. Returns whether it
    /// applied: only while counting.
    pub fn finish_counting(&mut self, total: u64) -> (r: bool)
        ensures
            r == after_count(old(self)@, total as nat) is Some,
            final(self)@ == applied(old(self)@, after_count(old(self)@, total as nat)),
    {
        if self.phase != Phase::Counting {
            return false;
        }
        let m = count_text("Uploading ", total, " files...");
        proof {
            reveal_strlit("Uploading ");
            reveal_strlit(" files...");
            assert(m@ =~= uploading_message(total as nat));
        }
        self.total_files = total;
        self.processed_files = 0;
        self.status_message = m;
        self.phase = Phase::Uploading;
        true
    }

    /// Records how the tool's run to `dest` ended, in one step: the busy flag
    /// drops and the final message appears together. Returns whether it
    /// applied: only while uploading.
    pub fn finish_upload(&mut self, dest: &String, outcome: &ProcessOutcome) -> (r: bool)
        ensures
            r == after_finish(old(self)@, dest@, *outcome) is Some,
            final(self)@ == applied(old(self)@, after_finish(old(self)@, dest@, *outcome)),
    {
        if self.phase != Phase::Uploading {
            return false;
        }
        match report_outcome(self.total_files, dest, outcome) {
            Ok(m) => {
                self.processed_files = self.total_files;
                self.status_message = m;
                self.phase = Phase::Done;
            },
            Err(m) => {
                self.status_message = m;
                self.phase = Phase::Failed;
            },
        }
        self.is_uploading = false;
        true
    }
}

impl UploadState {
    /// The progress caption `<processed>/<total> files`, shown only once a
    /// total is known (never a fraction over zero).
    pub fn progress_label(&self) -> (r: Option<String>)
        ensures
            r is Some == (self@.total_files > 0),
            r matches Some(t) ==> t@ == decimal(self@.processed_files) + "/"@ + decimal(
                self@.total_files,
            ) + " files"@,
    {
        if self.total_files == 0 {
            return None;
        }
        let mut t = String::new();
        push_decimal(&mut t, self.processed_files);
        t.append("/");
        push_decimal(&mut t, self.total_files);
        t.append(" files");
        proof {
            reveal_strlit("/");
            reveal_strlit(" files");
            assert(t@ =~= decimal(self@.processed_files) + "/"@ + decimal(self@.total_files)
                + " files"@);
        }
        Some(t)
    }

    pub fn total_files(&self) -> (r: u64)
        ensures
            r == self@.total_files,
    {
        self.total_files
    }

    pub fn processed_files(&self) -> (r: u64)
        ensures
            r == self@.processed_files,
    {
        self.processed_files
    }

    pub fn current_file(&self) -> (r: &String)
        ensures
            r@ == self@.current_file,
    {
        &self.current_file
    }

    pub fn is_uploading(&self) -> (r: bool)
        ensures
            r == self@.is_uploading,
    {
        self.is_uploading
    }

    pub fn status_message(&self) -> (r: &String)
        ensures
            r@ == self@.status_message,
    {
        &self.status_message
    }

    pub fn phase(&self) -> (r: Phase)
        ensures
            r == self@.phase,
    {
        self.phase
    }
}

/// Every transition keeps the record consistent.
pub proof fn lemma_transitions_keep_wf(
    v: UploadStateView,
    total: nat,
    dest: Seq<char>,
    o: ProcessOutcome,
)
    requires
        state_wf(v),
    ensures
        state_wf(initial_state()),
        state_wf(applied(v, after_selection(v, total))),
        state_wf(applied(v, after_start(v))),
        state_wf(applied(v, after_count(v, total))),
        state_wf(applied(v, after_finish(v, dest, o))),
{
}

/// While an upload is in progress the record never shows a final message:
/// its message is the counting or the uploading one, and its phase is
/// neither `Done` nor `Failed`. A final message comes only together with the
/// busy flag dropping. And a start that is accepted leaves the record busy.
pub proof fn lemma_busy_shows_no_final_message(
    v: UploadStateView,
    dest: Seq<char>,
    o: ProcessOutcome,
)
    requires
        state_wf(v),
    ensures
        v.is_uploading ==> !(v.phase is Done || v.phase is Failed) && (v.status_message
            == counting_message() || v.status_message == uploading_message(v.total_files)),
        after_finish(v, dest, o) matches Some(w) ==> !w.is_uploading && w.status_message
            == outcome_message(v.total_files, dest, o),
        after_start(v) matches Some(w) ==> w.is_uploading,
{
}

/// One upload at a time: a start requested while an upload is running is
/// refused and changes nothing, and the record stays busy until the run
/// has finished, so no second run is begun while one is in flight.
pub proof fn lemma_one_upload_at_a_time(v: UploadStateView, total: nat)
    requires
        state_wf(v),
        v.is_uploading,
    ensures
        after_start(v) is None,
        applied(v, after_start(v)) == v,
        after_selection(v, total) is None,
        after_count(v, total) matches Some(w) ==> w.is_uploading,
{
}

} // verus!
