//! Moving files and directory trees between the remote host and this machine.
//!
//! A single file goes as a raw stream of bytes. A directory tree is packed by
//! `tar` on one side and unpacked by `tar` on the other, the two joined by a
//! pipe. This module says what kind of thing a remote path is, and which
//! transfer moves it; the caller runs the transfer.

use vstd::prelude::*;
use crate::bridge::{CommandResult, CommandResultView};
use crate::text::{chars_of, same_text, trim, trimmed, views};

verus! {

/// What a remote path names.
#[derive(Clone, Copy, Debug, PartialEq, Eq, Structural)]
pub enum EntryKind {
    File,
    Directory,
}

/// The mode bits of a file that is sent to the remote host.
pub const DEFAULT_FILE_MODE: i32 = 0o644;

/// `p` without the slashes at its end; a path is never cut down to nothing.
pub open spec fn without_trailing_slashes(p: Seq<char>) -> Seq<char>
    decreases p.len(),
{
    if p.len() > 1 && p.last() == '/' {
        without_trailing_slashes(p.drop_last())
    } else {
        p
    }
}

/// The position of the last slash in `p`, or -1 if there is none.
pub open spec fn last_slash(p: Seq<char>) -> int
    decreases p.len(),
{
    if p.len() == 0 {
        -1
    } else if p.last() == '/' {
        p.len() - 1
    } else {
        last_slash(p.drop_last())
    }
}

/// The last component of `path`: what follows its last slash, slashes at its
/// end not counted.
pub open spec fn base_name(path: Seq<char>) -> Seq<char> {
    let p = without_trailing_slashes(path);
    p.skip(last_slash(p) + 1)
}

/// The directory that holds the last component of `path`: what stands before
/// its last slash; the root for a path directly under it; `.` for a path
/// without a slash.
pub open spec fn parent_dir(path: Seq<char>) -> Seq<char> {
    let p = without_trailing_slashes(path);
    let i = last_slash(p);
    if i < 0 {
        seq!['.']
    } else if i == 0 {
        seq!['/']
    } else {
        p.take(i)
    }
}

/// The path of `name` in the directory `directory`.
pub open spec fn path_in(directory: Seq<char>, name: Seq<char>) -> Seq<char> {
    directory + seq!['/'] + name
}

/// The query for the kind of `path`: by `stat` where the remote host offers
/// it, else by a long listing.
pub open spec fn classify_query(path: Seq<char>, stat_available: bool) -> Seq<char> {
    if stat_available {
        "stat -c %F "@ + path
    } else {
        listing_query(path)
    }
}

/// The long listing of `path` itself.
pub open spec fn listing_query(path: Seq<char>) -> Seq<char> {
    "ls -ld "@ + path
}

/// The kind that the output of `stat -c %F` names.
pub open spec fn kind_of_stat(stdout: Seq<char>) -> EntryKind {
    if trimmed(stdout) == "directory"@ {
        EntryKind::Directory
    } else {
        EntryKind::File
    }
}

/// The kind that a long listing names: a directory where it begins with `d`.
pub open spec fn kind_of_listing(stdout: Seq<char>) -> EntryKind {
    if stdout.len() > 0 && stdout[0] == 'd' {
        EntryKind::Directory
    } else {
        EntryKind::File
    }
}

/// Which query for the kind of a path is out.
#[derive(Clone, Copy, Debug, PartialEq, Eq, Structural)]
pub enum ClassifyStage {
    /// The query by `stat`.
    Stat,
    /// The long listing.
    Listing,
}

/// How the classification of a path went on.
#[derive(Debug, PartialEq, Eq)]
pub enum ClassifyStep {
    /// The kind is known.
    Known { kind: EntryKind },
    /// `stat` gave nothing to go by: `command`, the long listing, is to be
    /// run, and its result handed over with the stage `Listing`.
    Fallback { command: String },
}

pub enum ClassifyStepView {
    Known { kind: EntryKind },
    Fallback { command: Seq<char> },
}

impl View for ClassifyStep {
    type V = ClassifyStepView;

    open spec fn view(&self) -> ClassifyStepView {
        match *self {
            ClassifyStep::Known { kind } => ClassifyStepView::Known { kind },
            ClassifyStep::Fallback { command } => ClassifyStepView::Fallback { command: command@ },
        }
    }
}

/// How the classification of `path` goes on from `stage` on the result `r`:
/// a query by `stat` that ended with status zero names the kind, one that
/// failed falls back on the long listing, and the long listing names the kind
/// whatever its status.
pub open spec fn classify_step_of(path: Seq<char>, stage: ClassifyStage, r: CommandResultView)
    -> ClassifyStepView {
    match stage {
        ClassifyStage::Stat => if r.exit_status == 0 {
            ClassifyStepView::Known { kind: kind_of_stat(r.stdout) }
        } else {
            ClassifyStepView::Fallback { command: listing_query(path) }
        },
        ClassifyStage::Listing => ClassifyStepView::Known { kind: kind_of_listing(r.stdout) },
    }
}

/// One transfer between the remote host and this machine.
#[derive(Debug, PartialEq, Eq)]
pub enum Transfer {
    /// Receive the remote file `remote` as a raw stream of bytes into the
    /// local file `local`, which is made new.
    ReceiveFile { remote: String, local: String },
    /// Make the local directory `local`, run `remote_command` on the remote
    /// host and pipe what it writes, as it comes, into the local process
    /// `program` with `args`, which unpacks into `local`.
    ReceiveTree { remote_command: String, local: String, program: String, args: Vec<String> },
    /// Send the local file `local` as a raw stream of bytes of its length to
    /// the remote file `remote`, with the mode bits `mode`.
    SendFile { local: String, remote: String, mode: i32 },
    /// Run the local process `program` with `args` and pipe what it writes,
    /// as it comes, into `remote_command` on the remote host.
    SendTree { program: String, args: Vec<String>, remote_command: String },
}

pub enum TransferView {
    ReceiveFile { remote: Seq<char>, local: Seq<char> },
    ReceiveTree {
        remote_command: Seq<char>,
        local: Seq<char>,
        program: Seq<char>,
        args: Seq<Seq<char>>,
    },
    SendFile { local: Seq<char>, remote: Seq<char>, mode: i32 },
    SendTree { program: Seq<char>, args: Seq<Seq<char>>, remote_command: Seq<char> },
}

impl View for Transfer {
    type V = TransferView;

    open spec fn view(&self) -> TransferView {
        match *self {
            Transfer::ReceiveFile { remote, local } => TransferView::ReceiveFile {
                remote: remote@,
                local: local@,
            },
            Transfer::ReceiveTree { remote_command, local, program, args } => TransferView::ReceiveTree {
                remote_command: remote_command@,
                local: local@,
                program: program@,
                args: views(args@),
            },
            Transfer::SendFile { local, remote, mode } => TransferView::SendFile {
                local: local@,
                remote: remote@,
                mode,
            },
            Transfer::SendTree { program, args, remote_command } => TransferView::SendTree {
                program: program@,
                args: views(args@),
                remote_command: remote_command@,
            },
        }
    }
}

/// The remote command that packs the directory `path`: from its parent, so
/// that the archive holds its name alone as root.
pub open spec fn pack_remote(path: Seq<char>) -> Seq<char> {
    "tar -C "@ + parent_dir(path) + " -cf - "@ + base_name(path)
}

/// The arguments of the local `tar` that unpacks into `local`, without the
/// root of the archive.
pub open spec fn unpack_local_args(local: Seq<char>) -> Seq<Seq<char>> {
    seq!["-xf"@, "-"@, "-C"@, local, "--strip-components=1"@]
}

/// The arguments of the local `tar` that packs what is in `local`.
pub open spec fn pack_local_args(local: Seq<char>) -> Seq<Seq<char>> {
    seq!["-C"@, local, "-cf"@, "-"@, "."@]
}

/// The remote command that unpacks into the directory `path`, writing over
/// what is there.
pub open spec fn unpack_remote(path: Seq<char>) -> Seq<char> {
    "tar -xf - -C "@ + path + " --overwrite"@
}

/// The transfer that fetches the remote `remote`, of kind `kind`, to the
/// local `local`.
pub open spec fn fetch_of(remote: Seq<char>, local: Seq<char>, kind: EntryKind) -> TransferView {
    match kind {
        EntryKind::File => TransferView::ReceiveFile { remote, local },
        EntryKind::Directory => TransferView::ReceiveTree {
            remote_command: pack_remote(remote),
            local,
            program: "tar"@,
            args: unpack_local_args(local),
        },
    }
}

/// The transfer that pushes the local `local` back to the remote `remote`.
pub open spec fn push_back_of(local: Seq<char>, remote: Seq<char>, is_directory: bool)
    -> TransferView {
    if is_directory {
        TransferView::SendTree {
            program: "tar"@,
            args: pack_local_args(local),
            remote_command: unpack_remote(remote),
        }
    } else {
        TransferView::SendFile { local, remote, mode: DEFAULT_FILE_MODE }
    }
}

/// The warning for a packing or unpacking command on the remote host that
/// ended with a status other than zero: what it wrote to its standard error.
/// Such an end does not stop the work around it.
pub open spec fn pack_warning_of(r: CommandResultView) -> Option<Seq<char>> {
    if r.exit_status != 0 {
        Some(r.stderr)
    } else {
        None
    }
}

/// A position from which all is slashes, and before which they end or one
/// character is left, cuts off the slashes at the end.
pub proof fn lemma_without_trailing_slashes(p: Seq<char>, end: int)
    requires
        0 <= end <= p.len(),
        p.len() > 0 ==> end >= 1,
        forall|k: int| end <= k < p.len() ==> #[trigger] p[k] == '/',
        end <= 1 || p[end - 1] != '/',
    ensures
        without_trailing_slashes(p) == p.take(end),
    decreases p.len() - end,
{
    if end < p.len() {
        lemma_without_trailing_slashes(p.drop_last(), end);
    }
}

/// A position after which no slash stands, and at which one stands or which
/// is -1, is that of the last slash.
pub proof fn lemma_last_slash(p: Seq<char>, i: int)
    requires
        -1 <= i < p.len(),
        forall|k: int| i < k < p.len() ==> #[trigger] p[k] != '/',
        i == -1 || p[i] == '/',
    ensures
        last_slash(p) == i,
    decreases p.len(),
{
    if p.len() > 0 && i < p.len() - 1 {
        lemma_last_slash(p.drop_last(), i);
    }
}

/// Where the last component of `v` begins and ends, slashes at the end of
/// `v` not counted.
fn component_bounds(v: &Vec<char>) -> (r: (usize, usize))
    ensures
        r.0 <= r.1 <= v.len(),
        v@.take(r.1 as int) == without_trailing_slashes(v@),
        r.0 == last_slash(without_trailing_slashes(v@)) + 1,
{
    let n = v.len();
    let mut end: usize = n;
    while end > 1 && v[end - 1] == '/'
        invariant
            end <= n,
            n == v.len(),
            n > 0 ==> end >= 1,
            forall|k: int| end <= k < n ==> #[trigger] v@[k] == '/',
        decreases end,
    {
        end -= 1;
    }
    proof {
        lemma_without_trailing_slashes(v@, end as int);
    }
    let ghost p = v@.take(end as int);
    let mut start: usize = end;
    while start > 0 && v[start - 1] != '/'
        invariant
            start <= end <= n,
            n == v.len(),
            p == v@.take(end as int),
            forall|k: int| start <= k < end ==> #[trigger] p[k] != '/',
        decreases start,
    {
        start -= 1;
    }
    proof {
        lemma_last_slash(p, start - 1);
    }
    (start, end)
}

/// The last component of `path`.
pub fn file_name(path: &str) -> (r: String)
    ensures
        r@ == base_name(path@),
{
    let v = chars_of(path);
    let (start, end) = component_bounds(&v);
    path.substring_char(start, end).to_owned()
}

/// The directory that holds the last component of `path`.
pub fn parent(path: &str) -> (r: String)
    ensures
        r@ == parent_dir(path@),
{
    let v = chars_of(path);
    let (start, end) = component_bounds(&v);
    proof {
        reveal_strlit(".");
        reveal_strlit("/");
    }
    if start == 0 {
        ".".to_owned()
    } else if start == 1 {
        "/".to_owned()
    } else {
        path.substring_char(0, start - 1).to_owned()
    }
}

/// The path of `name` in the directory `directory`.
pub fn join_path(directory: &str, name: &str) -> (r: String)
    ensures
        r@ == path_in(directory@, name@),
{
    proof {
        reveal_strlit("/");
    }
    let mut out = directory.to_owned();
    out.append("/");
    out.append(name);
    out
}

/// The query for the kind of `path`, and the stage to hand its result over
/// with.
pub fn classify(path: &str, stat_available: bool) -> (r: (ClassifyStage, String))
    ensures
        r.1@ == classify_query(path@, stat_available),
        r.0 == if stat_available {
            ClassifyStage::Stat
        } else {
            ClassifyStage::Listing
        },
{
    if stat_available {
        let mut c = "stat -c %F ".to_owned();
        c.append(path);
        (ClassifyStage::Stat, c)
    } else {
        let mut c = "ls -ld ".to_owned();
        c.append(path);
        (ClassifyStage::Listing, c)
    }
}

/// Goes on with the classification of `path` on the result of the query that
/// was run for `stage`.
pub fn classify_step(path: &str, stage: ClassifyStage, result: &CommandResult) -> (r: ClassifyStep)
    ensures
        r@ == classify_step_of(path@, stage, result@),
{
    match stage {
        ClassifyStage::Stat => {
            if result.exit_status == 0 {
                let t = trim(result.stdout.as_str());
                if same_text(t.as_str(), "directory") {
                    ClassifyStep::Known { kind: EntryKind::Directory }
                } else {
                    ClassifyStep::Known { kind: EntryKind::File }
                }
            } else {
                let mut c = "ls -ld ".to_owned();
                c.append(path);
                ClassifyStep::Fallback { command: c }
            }
        },
        ClassifyStage::Listing => {
            let v = chars_of(result.stdout.as_str());
            if v.len() > 0 && v[0] == 'd' {
                ClassifyStep::Known { kind: EntryKind::Directory }
            } else {
                ClassifyStep::Known { kind: EntryKind::File }
            }
        },
    }
}

/// The transfer that fetches the remote `remote_path`, of kind `kind`, to
/// the local `local_path`.
pub fn fetch(remote_path: &str, local_path: &str, kind: EntryKind) -> (r: Transfer)
    ensures
        r@ == fetch_of(remote_path@, local_path@, kind),
{
    match kind {
        EntryKind::File => Transfer::ReceiveFile {
            remote: remote_path.to_owned(),
            local: local_path.to_owned(),
        },
        EntryKind::Directory => {
            let mut command = "tar -C ".to_owned();
            let dir = parent(remote_path);
            command.append(dir.as_str());
            command.append(" -cf - ");
            let name = file_name(remote_path);
            command.append(name.as_str());
            let mut args: Vec<String> = Vec::new();
            args.push("-xf".to_owned());
            args.push("-".to_owned());
            args.push("-C".to_owned());
            args.push(local_path.to_owned());
            args.push("--strip-components=1".to_owned());
            assert(views(args@) =~= unpack_local_args(local_path@));
            Transfer::ReceiveTree {
                remote_command: command,
                local: local_path.to_owned(),
                program: "tar".to_owned(),
                args,
            }
        },
    }
}

/// The transfer that pushes the local `local_path` back to the remote
/// `remote_path`.
pub fn push_back(local_path: &str, remote_path: &str, is_directory: bool) -> (r: Transfer)
    ensures
        r@ == push_back_of(local_path@, remote_path@, is_directory),
{
    if is_directory {
        let mut args: Vec<String> = Vec::new();
        args.push("-C".to_owned());
        args.push(local_path.to_owned());
        args.push("-cf".to_owned());
        args.push("-".to_owned());
        args.push(".".to_owned());
        assert(views(args@) =~= pack_local_args(local_path@));
        let mut command = "tar -xf - -C ".to_owned();
        command.append(remote_path);
        command.append(" --overwrite");
        Transfer::SendTree { program: "tar".to_owned(), args, remote_command: command }
    } else {
        Transfer::SendFile {
            local: local_path.to_owned(),
            remote: remote_path.to_owned(),
            mode: DEFAULT_FILE_MODE,
        }
    }
}

/// The warning, if any, for a packing or unpacking command on the remote
/// host.
pub fn pack_warning(result: &CommandResult) -> (r: Option<String>)
    ensures
        crate::text::opt_view(r) == pack_warning_of(result@),
{
    if result.exit_status != 0 {
        Some(result.stderr.clone())
    } else {
        None
    }
}

} // verus!
