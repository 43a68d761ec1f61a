use vstd::prelude::*;

use crate::organize_mode::OrganizeMode;
use crate::image_queue::ImageQueueState;
use crate::organizer::{build_plan, is_plan_of, plan_wf, Bucket};
use crate::side_panel::SidePanelState;

verus! {

/// `dir` and `name` joined by a path separator.
pub open spec fn join(dir: Seq<char>, name: Seq<char>) -> Seq<char> {
    dir + seq!['/'] + name
}

fn join_path(dir: &String, name: &String) -> (r: String)
    ensures
        r@ == join(dir@, name@),
{
    let r = dir.clone().concat("/").concat(name.as_str());
    proof {
        reveal_strlit("/");
    }
    r
}

/// One file-system operation that an organize run asks for.
#[derive(Debug)]
pub enum FileOp {
    /// Create a directory and its missing parents; one that exists already is fine.
    CreateDir { path: String },
    /// Copy the file `from` to `to`.
    Copy { from: String, to: String },
    /// Delete the file at `path`.
    Remove { path: String },
    /// Create a symbolic link at `link` that points to `target`.
    Symlink { target: String, link: String },
}

/// The value of a `FileOp`.
pub enum FileOpView {
    CreateDir(Seq<char>),
    Copy(Seq<char>, Seq<char>),
    Remove(Seq<char>),
    Symlink(Seq<char>, Seq<char>),
}

impl View for FileOp {
    type V = FileOpView;

    open spec fn view(&self) -> FileOpView {
        match self {
            FileOp::CreateDir { path } => FileOpView::CreateDir(path@),
            FileOp::Copy { from, to } => FileOpView::Copy(from@, to@),
            FileOp::Remove { path } => FileOpView::Remove(path@),
            FileOp::Symlink { target, link } => FileOpView::Symlink(target@, link@),
        }
    }
}

/// How a file-system operation went: done, or failed with the error's text.
#[derive(Debug)]
pub enum Outcome {
    Done,
    Failed(String),
}

/// Where an organize run stands within the current bucket.
#[derive(Debug, Clone, Copy, PartialEq, Eq, Structural)]
pub enum Phase {
    /// The bucket's folder is to be made.
    Prepare,
    /// The current file is to be copied or linked.
    Transfer,
    /// The current file was copied in Move mode; its original is to be deleted.
    RemoveOriginal,
}

/// How far through a file the run is.
pub open spec fn phase_rank(p: Phase) -> nat {
    match p {
        Phase::Prepare => 0,
        Phase::Transfer => 1,
        Phase::RemoveOriginal => 2,
    }
}

/// The log line for a folder that could not be made.
pub open spec fn msg_dir_failed(dir: Seq<char>, err: Seq<char>) -> Seq<char> {
    "Error creating "@ + dir + ": "@ + err
}

pub open spec fn msg_copied(file: Seq<char>) -> Seq<char> {
    file + " copied"@
}

pub open spec fn msg_copy_failed(file: Seq<char>, err: Seq<char>) -> Seq<char> {
    "Error copying "@ + file + ": "@ + err
}

pub open spec fn msg_linked(file: Seq<char>) -> Seq<char> {
    file + " linked"@
}

pub open spec fn msg_link_failed(file: Seq<char>, err: Seq<char>) -> Seq<char> {
    "Error linking "@ + file + ": "@ + err
}

pub open spec fn msg_removed(file: Seq<char>) -> Seq<char> {
    "Original "@ + file + " removed"@
}

pub open spec fn msg_remove_failed(file: Seq<char>, err: Seq<char>) -> Seq<char> {
    file + " copied, but the original could not be removed and both now exist: "@ + err
}

/// A run of the organize process over a plan: it names the next file-system operation, takes
/// its outcome, and keeps a log line for each outcome worth reporting. No failure ends the run.
#[derive(Debug)]
pub struct OrganizeRun {
    pub mode: OrganizeMode,
    pub source_root: String,
    pub destination_root: String,
    pub plan: Vec<Bucket>,
    pub bucket: usize,
    pub file: usize,
    pub phase: Phase,
    pub log: Vec<String>,
}

impl OrganizeRun {
    pub open spec fn wf(&self) -> bool {
        &&& plan_wf(self.plan@)
        &&& self.bucket <= self.plan@.len()
        &&& self.bucket < self.plan@.len() ==> self.file < self.plan@[self.bucket as int].paths@.len()
        &&& self.phase == Phase::RemoveOriginal ==> self.mode == OrganizeMode::Move
        &&& self.phase == Phase::Prepare ==> self.file == 0
    }

    /// The folder of the current bucket.
    pub open spec fn dir(&self) -> Seq<char> {
        join(self.destination_root@, self.plan@[self.bucket as int].label@)
    }

    /// The current file, as the queue names it.
    pub open spec fn current(&self) -> Seq<char> {
        self.plan@[self.bucket as int].paths@[self.file as int]@
    }

    pub open spec fn source(&self) -> Seq<char> {
        join(self.source_root@, self.current())
    }

    pub open spec fn target(&self) -> Seq<char> {
        join(self.dir(), self.current())
    }

    /// The operation the run waits on, or `None` once every bucket is through.
    pub open spec fn pending(&self) -> Option<FileOpView> {
        if self.bucket >= self.plan@.len() {
            None
        } else {
            Some(
                match self.phase {
                    Phase::Prepare => FileOpView::CreateDir(self.dir()),
                    Phase::Transfer => match self.mode {
                        OrganizeMode::Link => FileOpView::Symlink(self.source(), self.target()),
                        _ => FileOpView::Copy(self.source(), self.target()),
                    },
                    Phase::RemoveOriginal => FileOpView::Remove(self.source()),
                },
            )
        }
    }

    /// The position after the current file: the next file of the bucket, or the next bucket.
    pub open spec fn after_file(&self) -> (usize, usize, Phase) {
        if self.file + 1 < self.plan@[self.bucket as int].paths@.len() {
            (self.bucket, (self.file + 1) as usize, Phase::Transfer)
        } else {
            ((self.bucket + 1) as usize, 0usize, Phase::Prepare)
        }
    }

    /// The position after the pending operation ends with `outcome`. A folder that cannot be
    /// made skips its whole bucket; a copy that fails in Move mode leaves the original alone.
    pub open spec fn position_after(&self, outcome: Outcome) -> (usize, usize, Phase) {
        match self.phase {
            Phase::Prepare => match outcome {
                Outcome::Done => (self.bucket, 0usize, Phase::Transfer),
                Outcome::Failed(_) => ((self.bucket + 1) as usize, 0usize, Phase::Prepare),
            },
            Phase::Transfer => match (self.mode, outcome) {
                (OrganizeMode::Move, Outcome::Done) => (self.bucket, self.file, Phase::RemoveOriginal),
                _ => self.after_file(),
            },
            Phase::RemoveOriginal => self.after_file(),
        }
    }

    /// The log line that the pending operation's `outcome` adds, if any.
    pub open spec fn entry_for(&self, outcome: Outcome) -> Option<Seq<char>> {
        match (self.phase, outcome) {
            (Phase::Prepare, Outcome::Done) => None,
            (Phase::Prepare, Outcome::Failed(e)) => Some(msg_dir_failed(self.dir(), e@)),
            (Phase::Transfer, Outcome::Done) => Some(
                match self.mode {
                    OrganizeMode::Link => msg_linked(self.current()),
                    _ => msg_copied(self.current()),
                },
            ),
            (Phase::Transfer, Outcome::Failed(e)) => Some(
                match self.mode {
                    OrganizeMode::Link => msg_link_failed(self.current(), e@),
                    _ => msg_copy_failed(self.current(), e@),
                },
            ),
            (Phase::RemoveOriginal, Outcome::Done) => Some(msg_removed(self.current())),
            (Phase::RemoveOriginal, Outcome::Failed(e)) => Some(msg_remove_failed(self.current(), e@)),
        }
    }

    /// A run over `plan` that has done nothing yet.
    pub fn new(mode: OrganizeMode, plan: Vec<Bucket>, source_root: String, destination_root: String) -> (r: OrganizeRun)
        requires
            plan_wf(plan@),
        ensures
            r.wf(),
            r.mode == mode,
            r.plan@ == plan@,
            r.source_root@ == source_root@,
            r.destination_root@ == destination_root@,
            r.bucket == 0,
            r.file == 0,
            r.phase == Phase::Prepare,
            r.log@.len() == 0,
    {
        OrganizeRun {
            mode,
            source_root,
            destination_root,
            plan,
            bucket: 0,
            file: 0,
            phase: Phase::Prepare,
            log: Vec::new(),
        }
    }

    /// A run that files the tagged images of `queue` by the labels of `registry`, from
    /// `source_root` into folders under `destination_root`.
    pub fn start(
        mode: OrganizeMode,
        queue: &ImageQueueState,
        registry: &SidePanelState,
        source_root: String,
        destination_root: String,
    ) -> (r: OrganizeRun)
        ensures
            r.wf(),
            is_plan_of(r.plan@, queue.image_infos@, registry.tags@),
            r.mode == mode,
            r.source_root@ == source_root@,
            r.destination_root@ == destination_root@,
            r.bucket == 0,
            r.file == 0,
            r.phase == Phase::Prepare,
            r.log@.len() == 0,
    {
        let plan = build_plan(queue, registry);
        OrganizeRun::new(mode, plan, source_root, destination_root)
    }

    /// Whether every bucket is through.
    pub fn is_finished(&self) -> (r: bool)
        ensures
            r == self.pending() is None,
    {
        self.bucket >= self.plan.len()
    }

    /// The operation to perform next, or `None` once the run is over.
    pub fn next_op(&self) -> (r: Option<FileOp>)
        requires
            self.wf(),
        ensures
            match r {
                Some(op) => self.pending() == Some(op@),
                None => self.pending() is None,
            },
    {
        if self.bucket >= self.plan.len() {
            return None;
        }
        let b = &self.plan[self.bucket];
        let dir = join_path(&self.destination_root, &b.label);
        match self.phase {
            Phase::Prepare => Some(FileOp::CreateDir { path: dir }),
            Phase::Transfer => {
                let name = &b.paths[self.file];
                let source = join_path(&self.source_root, name);
                let target = join_path(&dir, name);
                match self.mode {
                    OrganizeMode::Link => Some(FileOp::Symlink { target: source, link: target }),
                    _ => Some(FileOp::Copy { from: source, to: target }),
                }
            },
            Phase::RemoveOriginal => {
                let source = join_path(&self.source_root, &b.paths[self.file]);
                Some(FileOp::Remove { path: source })
            },
        }
    }

    /// The log line for the pending operation's outcome, built as `entry_for` says.
    fn entry(&self, outcome: &Outcome) -> (r: Option<String>)
        requires
            self.wf(),
            self.bucket < self.plan@.len(),
        ensures
            match r {
                Some(m) => self.entry_for(*outcome) == Some(m@),
                None => self.entry_for(*outcome) is None,
            },
    {
        let b = &self.plan[self.bucket];
        let name = &b.paths[self.file];
        proof {
            reveal_strlit("Error creating ");
            reveal_strlit(": ");
            reveal_strlit(" copied");
            reveal_strlit("Error copying ");
            reveal_strlit(" linked");
            reveal_strlit("Error linking ");
            reveal_strlit("Original ");
            reveal_strlit(" removed");
            reveal_strlit(" copied, but the original could not be removed and both now exist: ");
        }
        match (self.phase, outcome) {
            (Phase::Prepare, Outcome::Done) => None,
            (Phase::Prepare, Outcome::Failed(e)) => {
                let dir = join_path(&self.destination_root, &b.label);
                Some(String::from_str("Error creating ").concat(dir.as_str()).concat(": ").concat(e.as_str()))
            },
            (Phase::Transfer, Outcome::Done) => match self.mode {
                OrganizeMode::Link => Some(name.clone().concat(" linked")),
                _ => Some(name.clone().concat(" copied")),
            },
            (Phase::Transfer, Outcome::Failed(e)) => match self.mode {
                OrganizeMode::Link => Some(
                    String::from_str("Error linking ").concat(name.as_str()).concat(": ").concat(e.as_str()),
                ),
                _ => Some(
                    String::from_str("Error copying ").concat(name.as_str()).concat(": ").concat(e.as_str()),
                ),
            },
            (Phase::RemoveOriginal, Outcome::Done) => Some(
                String::from_str("Original ").concat(name.as_str()).concat(" removed"),
            ),
            (Phase::RemoveOriginal, Outcome::Failed(e)) => Some(
                name.clone().concat(" copied, but the original could not be removed and both now exist: ").concat(
                    e.as_str(),
                ),
            ),
        }
    }

    /// Takes the outcome of the pending operation: logs it where `entry_for` gives a line, and
    /// moves on as `position_after` says. Every call moves the run forward.
    pub fn record(&mut self, outcome: Outcome)
        requires
            old(self).wf(),
            old(self).pending() is Some,
        ensures
            final(self).wf(),
            (final(self).bucket, final(self).file, final(self).phase) == old(self).position_after(outcome),
            final(self).mode == old(self).mode,
            final(self).plan@ == old(self).plan@,
            final(self).source_root@ == old(self).source_root@,
            final(self).destination_root@ == old(self).destination_root@,
            match old(self).entry_for(outcome) {
                Some(m) => final(self).log@.len() == old(self).log@.len() + 1
                    && final(self).log@.take(old(self).log@.len() as int) == old(self).log@
                    && final(self).log@.last()@ == m,
                None => final(self).log@ == old(self).log@,
            },
            final(self).bucket > old(self).bucket
                || (final(self).bucket == old(self).bucket && final(self).file > old(self).file)
                || (final(self).bucket == old(self).bucket && final(self).file == old(self).file
                    && phase_rank(final(self).phase) > phase_rank(old(self).phase)),
    {
        let ghost prev_log = self.log@;
        if let Some(line) = self.entry(&outcome) {
            self.log.push(line);
            proof {
                assert(self.log@.take(prev_log.len() as int) =~= prev_log);
            }
        }
        proof {
            assert(self.plan.len() == self.plan@.len());
        }
        let files = self.plan[self.bucket].paths.len();
        let last_file = self.file + 1 >= files;
        match (self.phase, outcome) {
            (Phase::Prepare, Outcome::Done) => {
                self.file = 0;
                self.phase = Phase::Transfer;
            },
            (Phase::Prepare, Outcome::Failed(_)) => {
                self.bucket = self.bucket + 1;
                self.file = 0;
            },
            (Phase::Transfer, Outcome::Done) if self.mode == OrganizeMode::Move => {
                self.phase = Phase::RemoveOriginal;
            },
            _ => {
                if last_file {
                    self.bucket = self.bucket + 1;
                    self.file = 0;
                    self.phase = Phase::Prepare;
                } else {
                    self.file = self.file + 1;
                    self.phase = Phase::Transfer;
                }
            },
        }
    }
}

/// A folder that cannot be made costs its bucket and one log line, and nothing more: the run
/// goes on with the next bucket's folder, or ends when there is none.
pub proof fn lemma_failed_folder_skips_bucket(run: OrganizeRun, err: String)
    requires
        run.wf(),
        run.pending() == Some(FileOpView::CreateDir(run.dir())),
    ensures
        run.position_after(Outcome::Failed(err)) == ((run.bucket + 1) as usize, 0usize, Phase::Prepare),
        run.entry_for(Outcome::Failed(err)) == Some(msg_dir_failed(run.dir(), err@)),
{
}

/// Only a Move run ever deletes a file, and only the original of a file it has just copied:
/// a removal follows a transfer that succeeded, and no failed transfer leads to one.
pub proof fn lemma_only_move_removes(run: OrganizeRun, outcome: Outcome)
    requires
        run.wf(),
        run.pending() is Some,
    ensures
        run.pending() matches Some(FileOpView::Remove(_)) ==> run.mode == OrganizeMode::Move,
        run.position_after(outcome).2 == Phase::RemoveOriginal ==> {
            &&& run.mode == OrganizeMode::Move
            &&& run.phase == Phase::Transfer
            &&& outcome is Done
            &&& run.pending() == Some(FileOpView::Copy(run.source(), run.target()))
        },
{
}

} // verus!