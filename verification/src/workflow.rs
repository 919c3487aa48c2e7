//! The two workflows over a staged copy: editing a remote file or directory
//! locally, and copying one to this machine.
//!
//! The edit workflow fetches into a staging directory of its own, runs the
//! editor, asks whether to send the changes back, sends them, and removes the
//! staging directory. Once the staging directory exists, its removal is
//! attempted exactly once, however the workflow ends.

use vstd::prelude::*;
use crate::sync::{
    base_name, fetch, fetch_of, file_name, join_path, path_in, push_back, push_back_of, EntryKind,
    Transfer,
};
use crate::text::{
    chars_of, decimal, decimal_string, lemma_decimal_injective, opt_view, trim, trim_bounds,
    trimmed,
};

verus! {

/// How an edit workflow ended.
#[derive(Clone, Copy, Debug, PartialEq, Eq, Structural)]
pub enum EditOutcome {
    /// The staging directory could not be made; nothing was fetched.
    StagingFailed,
    /// The fetch failed.
    FetchFailed,
    /// The editor could not be run.
    EditorFailed,
    /// The user did not want the changes sent back.
    Declined,
    /// Sending the changes back failed.
    PushFailed,
    /// The changes were sent back.
    Synced,
}

/// Where an edit workflow stands.
#[derive(Clone, Copy, Debug, PartialEq, Eq, Structural)]
pub enum EditStage {
    Start,
    /// The staging directory is being made.
    Staging,
    /// The remote path is being fetched into the staging directory.
    Fetching,
    /// The editor is running.
    Editing,
    /// The user is being asked whether to send the changes back.
    Confirming,
    /// The staged copy is being sent back.
    Pushing,
    /// The staging directory is being removed.
    Cleaning { outcome: EditOutcome },
    /// The workflow has ended.
    Finished { outcome: EditOutcome },
}

/// What the caller reports to an edit workflow.
#[derive(Clone, Copy, Debug, PartialEq, Eq, Structural)]
pub enum EditEvent {
    /// What was asked for has been done.
    Done,
    /// What was asked for has failed.
    Failed,
    /// The user wants the changes sent back.
    Confirmed,
    /// The user does not want the changes sent back.
    Declined,
}

/// What the caller of an edit workflow is to do next.
#[derive(Clone, Copy, Debug, PartialEq, Eq, Structural)]
pub enum EditAction {
    /// Make the staging directory.
    CreateStaging,
    /// Run the fetch.
    Fetch,
    /// Run the editor on the staged copy and wait for it.
    RunEditor,
    /// Ask the user whether to send the changes back.
    AskConfirm,
    /// Send the staged copy back.
    Push,
    /// Remove the staging directory; a failure to do so is passed over.
    RemoveStaging,
    /// The workflow has ended.
    Finish { outcome: EditOutcome },
}

/// The step that leaves the work and removes the staging directory.
pub open spec fn clean_up(outcome: EditOutcome) -> (EditStage, EditAction) {
    (EditStage::Cleaning { outcome }, EditAction::RemoveStaging)
}

/// The step that ends the workflow.
pub open spec fn finish(outcome: EditOutcome) -> (EditStage, EditAction) {
    (EditStage::Finished { outcome }, EditAction::Finish { outcome })
}

/// The next stage of an edit workflow and what the caller is to do. A
/// failure before the staging directory exists ends the workflow; any later
/// failure, and the user's refusal, lead to the removal of the staging
/// directory first, as success does.
pub open spec fn edit_next(stage: EditStage, event: EditEvent) -> (EditStage, EditAction) {
    match stage {
        EditStage::Start => (EditStage::Staging, EditAction::CreateStaging),
        EditStage::Staging => if event == EditEvent::Done {
            (EditStage::Fetching, EditAction::Fetch)
        } else {
            finish(EditOutcome::StagingFailed)
        },
        EditStage::Fetching => if event == EditEvent::Done {
            (EditStage::Editing, EditAction::RunEditor)
        } else {
            clean_up(EditOutcome::FetchFailed)
        },
        EditStage::Editing => if event == EditEvent::Done {
            (EditStage::Confirming, EditAction::AskConfirm)
        } else {
            clean_up(EditOutcome::EditorFailed)
        },
        EditStage::Confirming => if event == EditEvent::Confirmed {
            (EditStage::Pushing, EditAction::Push)
        } else {
            clean_up(EditOutcome::Declined)
        },
        EditStage::Pushing => if event == EditEvent::Done {
            clean_up(EditOutcome::Synced)
        } else {
            clean_up(EditOutcome::PushFailed)
        },
        EditStage::Cleaning { outcome } => finish(outcome),
        EditStage::Finished { outcome } => finish(outcome),
    }
}

/// The stage of an edit workflow after the events `events`.
pub open spec fn edit_stage_after(events: Seq<EditEvent>) -> EditStage
    decreases events.len(),
{
    if events.len() == 0 {
        EditStage::Start
    } else {
        edit_next(edit_stage_after(events.drop_last()), events.last()).0
    }
}

/// How often the caller was told to remove the staging directory in the
/// course of the events `events`.
pub open spec fn removals(events: Seq<EditEvent>) -> nat
    decreases events.len(),
{
    if events.len() == 0 {
        0
    } else {
        removals(events.drop_last()) + if edit_next(
            edit_stage_after(events.drop_last()),
            events.last(),
        ).1 == EditAction::RemoveStaging {
            1nat
        } else {
            0nat
        }
    }
}

/// Whether the staging directory has been made when the workflow is in
/// `stage`: whether the workflow went beyond the making of it.
pub open spec fn staged(stage: EditStage) -> bool {
    match stage {
        EditStage::Start => false,
        EditStage::Staging => false,
        EditStage::Finished { outcome } => outcome != EditOutcome::StagingFailed,
        _ => true,
    }
}

/// Whether the removal of the staging directory has been asked for when the
/// workflow is in `stage`.
pub open spec fn cleaned(stage: EditStage) -> bool {
    match stage {
        EditStage::Cleaning { outcome } => true,
        EditStage::Finished { outcome } => outcome != EditOutcome::StagingFailed,
        _ => false,
    }
}

/// The removal of the staging directory is asked for once at most, and not
/// before the work on it is over; a workflow that has ended has asked for it
/// exactly once if the staging directory was made, and never if it was not.
pub proof fn lemma_cleanup_once(events: Seq<EditEvent>)
    ensures
        removals(events) == if cleaned(edit_stage_after(events)) {
            1nat
        } else {
            0nat
        },
        edit_stage_after(events) matches EditStage::Finished { outcome } ==> removals(events) == if staged(
            edit_stage_after(events),
        ) {
            1nat
        } else {
            0nat
        },
        edit_stage_after(events) matches EditStage::Cleaning { outcome } ==> outcome
            != EditOutcome::StagingFailed,
    decreases events.len(),
{
    if events.len() > 0 {
        lemma_cleanup_once(events.drop_last());
    }
}

/// Whether the answer `answer` to the question whether to send the changes
/// back declines: it does where its first character, whitespace apart, is
/// `n` or `N`. Every other answer, the empty one too, agrees.
pub open spec fn declines(answer: Seq<char>) -> bool {
    let t = trimmed(answer);
    t.len() > 0 && (t[0] == 'n' || t[0] == 'N')
}

/// The editor to run: the user's setting where there is one that holds more
/// than whitespace, trimmed; else `vi`.
pub open spec fn editor_of(setting: Option<Seq<char>>) -> Seq<char> {
    match setting {
        Some(s) => if trimmed(s).len() > 0 {
            trimmed(s)
        } else {
            "vi"@
        },
        None => "vi"@,
    }
}

/// The name of the staging directory made at the time `timestamp`.
pub open spec fn staging_name_of(timestamp: nat) -> Seq<char> {
    "trump-"@ + decimal(timestamp)
}

/// Staging directories made at different times have different names.
pub proof fn lemma_staging_names_differ(a: nat, b: nat)
    requires
        a != b,
    ensures
        staging_name_of(a) != staging_name_of(b),
{
    if staging_name_of(a) == staging_name_of(b) {
        let p = "trump-"@;
        assert((p + decimal(a)).skip(p.len() as int) =~= decimal(a));
        assert((p + decimal(b)).skip(p.len() as int) =~= decimal(b));
        lemma_decimal_injective(a, b);
    }
}

/// What an edit workflow works on.
#[derive(Debug, PartialEq, Eq)]
pub struct EditJob {
    /// The remote path that is edited.
    pub remote_path: String,
    /// What the remote path names.
    pub kind: EntryKind,
    /// The staging directory of this workflow.
    pub staging_dir: String,
    /// The staged copy, inside the staging directory.
    pub staged_path: String,
    /// The editor to run on the staged copy.
    pub editor: String,
}

impl EditJob {
    /// Whether the parts of the job fit together: the staged copy stands in
    /// the staging directory under the last component of the remote path.
    pub open spec fn well_formed(&self) -> bool {
        self.staged_path@ == path_in(self.staging_dir@, base_name(self.remote_path@))
    }

    /// The transfer that fetches the remote path into the staged copy.
    pub fn fetch_plan(&self) -> (r: Transfer)
        ensures
            r@ == fetch_of(self.remote_path@, self.staged_path@, self.kind),
    {
        fetch(self.remote_path.as_str(), self.staged_path.as_str(), self.kind)
    }

    /// The transfer that sends the staged copy back to the remote path.
    pub fn push_plan(&self) -> (r: Transfer)
        ensures
            r@ == push_back_of(
                self.staged_path@,
                self.remote_path@,
                self.kind == EntryKind::Directory,
            ),
    {
        let is_directory = match self.kind {
            EntryKind::Directory => true,
            EntryKind::File => false,
        };
        push_back(self.staged_path.as_str(), self.remote_path.as_str(), is_directory)
    }
}

/// The next stage of an edit workflow and what the caller is to do.
pub fn edit_step(stage: EditStage, event: EditEvent) -> (r: (EditStage, EditAction))
    ensures
        r == edit_next(stage, event),
{
    let done = match event {
        EditEvent::Done => true,
        _ => false,
    };
    let confirmed = match event {
        EditEvent::Confirmed => true,
        _ => false,
    };
    match stage {
        EditStage::Start => (EditStage::Staging, EditAction::CreateStaging),
        EditStage::Staging => if done {
            (EditStage::Fetching, EditAction::Fetch)
        } else {
            end_with(EditOutcome::StagingFailed)
        },
        EditStage::Fetching => if done {
            (EditStage::Editing, EditAction::RunEditor)
        } else {
            remove_then(EditOutcome::FetchFailed)
        },
        EditStage::Editing => if done {
            (EditStage::Confirming, EditAction::AskConfirm)
        } else {
            remove_then(EditOutcome::EditorFailed)
        },
        EditStage::Confirming => if confirmed {
            (EditStage::Pushing, EditAction::Push)
        } else {
            remove_then(EditOutcome::Declined)
        },
        EditStage::Pushing => if done {
            remove_then(EditOutcome::Synced)
        } else {
            remove_then(EditOutcome::PushFailed)
        },
        EditStage::Cleaning { outcome } => end_with(outcome),
        EditStage::Finished { outcome } => end_with(outcome),
    }
}

fn remove_then(outcome: EditOutcome) -> (r: (EditStage, EditAction))
    ensures
        r == clean_up(outcome),
{
    (EditStage::Cleaning { outcome }, EditAction::RemoveStaging)
}

fn end_with(outcome: EditOutcome) -> (r: (EditStage, EditAction))
    ensures
        r == finish(outcome),
{
    (EditStage::Finished { outcome }, EditAction::Finish { outcome })
}

/// Whether the answer `answer` agrees to send the changes back.
pub fn confirms(answer: &str) -> (r: bool)
    ensures
        r == !declines(answer@),
{
    let v = chars_of(answer);
    let (a, b) = trim_bounds(&v);
    if a < b {
        !(v[a] == 'n' || v[a] == 'N')
    } else {
        true
    }
}

/// The editor to run, given the user's setting.
pub fn editor_command(setting: Option<&str>) -> (r: String)
    ensures
        r@ == editor_of(
            match setting {
                Some(s) => Some(s@),
                None => None,
            },
        ),
{
    match setting {
        Some(s) => {
            let t = trim(s);
            if t.as_str().unicode_len() > 0 {
                t
            } else {
                "vi".to_owned()
            }
        },
        None => "vi".to_owned(),
    }
}

/// The name of the staging directory made at the time `timestamp`.
pub fn staging_name(timestamp: u64) -> (r: String)
    ensures
        r@ == staging_name_of(timestamp as nat),
{
    let mut out = "trump-".to_owned();
    let digits = decimal_string(timestamp);
    out.append(digits.as_str());
    out
}

/// The job of editing `remote_path`, of kind `kind`: its staging directory
/// stands in `temp_root` under the name for `timestamp`, and the staged copy
/// in it under the last component of `remote_path`.
pub fn plan_edit(
    remote_path: &str,
    kind: EntryKind,
    temp_root: &str,
    timestamp: u64,
    editor_setting: Option<&str>,
) -> (r: EditJob)
    ensures
        r.remote_path@ == remote_path@,
        r.kind == kind,
        r.staging_dir@ == path_in(temp_root@, staging_name_of(timestamp as nat)),
        r.editor@ == editor_of(
            match editor_setting {
                Some(s) => Some(s@),
                None => None,
            },
        ),
        r.well_formed(),
{
    let name = staging_name(timestamp);
    let staging_dir = join_path(temp_root, name.as_str());
    let base = file_name(remote_path);
    let staged_path = join_path(staging_dir.as_str(), base.as_str());
    EditJob {
        remote_path: remote_path.to_owned(),
        kind,
        staging_dir,
        staged_path,
        editor: editor_command(editor_setting),
    }
}

/// What a copy still lacks.
#[derive(Clone, Copy, Debug, PartialEq, Eq, Structural)]
pub enum CopyNeed {
    /// The source is to be asked for.
    Source,
    /// The destination is to be asked for.
    Destination,
    /// Nothing: the fetch can run.
    Nothing,
}

/// What a copy with the given source and destination still lacks: the source
/// is asked for first.
pub open spec fn copy_need_of(source: Option<Seq<char>>, destination: Option<Seq<char>>)
    -> CopyNeed {
    if source is None {
        CopyNeed::Source
    } else if destination is None {
        CopyNeed::Destination
    } else {
        CopyNeed::Nothing
    }
}

/// The source that the answer `answer` names: the answer trimmed, or nothing
/// where that is empty.
pub open spec fn source_of(answer: Seq<char>) -> Option<Seq<char>> {
    if trimmed(answer).len() > 0 {
        Some(trimmed(answer))
    } else {
        None
    }
}

/// The destination that the answer `answer` names: the answer trimmed, or the
/// local working directory where that is empty.
pub open spec fn destination_of(answer: Seq<char>, local_cwd: Seq<char>) -> Seq<char> {
    if trimmed(answer).len() > 0 {
        trimmed(answer)
    } else {
        local_cwd
    }
}

/// What a copy with the given source and destination still lacks.
pub fn copy_need(source: &Option<String>, destination: &Option<String>) -> (r: CopyNeed)
    ensures
        r == copy_need_of(opt_view(*source), opt_view(*destination)),
{
    if source.is_none() {
        CopyNeed::Source
    } else if destination.is_none() {
        CopyNeed::Destination
    } else {
        CopyNeed::Nothing
    }
}

/// The source that the answer `answer` names.
pub fn accept_source(answer: &str) -> (r: Option<String>)
    ensures
        opt_view(r) == source_of(answer@),
{
    let t = trim(answer);
    if t.as_str().unicode_len() > 0 {
        Some(t)
    } else {
        None
    }
}

/// The destination that the answer `answer` names.
pub fn accept_destination(answer: &str, local_cwd: &str) -> (r: String)
    ensures
        r@ == destination_of(answer@, local_cwd@),
{
    let t = trim(answer);
    if t.as_str().unicode_len() > 0 {
        t
    } else {
        local_cwd.to_owned()
    }
}

/// The transfer that copies the remote `source`, of kind `kind`, into the
/// local directory `destination`, under its own name.
pub fn plan_copy(source: &str, destination: &str, kind: EntryKind) -> (r: Transfer)
    ensures
        r@ == fetch_of(source@, path_in(destination@, base_name(source@)), kind),
{
    let name = file_name(source);
    let local = join_path(destination, name.as_str());
    fetch(source, local.as_str(), kind)
}

} // verus!
