//! Growth of a partition to the end of its disk.

use crate::number::{decimal, decimal_of};
use crate::protocol::{
    view_outcome, Invocation, InvocationView, Level, Reply, ReplyView, Request, RequestView,
    ToolOutcome, ToolOutcomeView,
};
use crate::resize::{ResizeError, ResizeErrorView};
use crate::text::{contains, includes, joined, string_of};
use vstd::prelude::*;

verus! {

/// Whether a tool's output says that the partition cannot grow any further.
pub open spec fn already_maximal(text: Seq<char>) -> bool {
    ||| contains(text, "already at maximum size"@)
    ||| contains(text, "no space left"@)
    ||| contains(text, "cannot be grown"@)
    ||| contains(text, "NOCHANGE"@)
}

/// Whether a tool's output says that the partition cannot grow any further.
pub fn says_already_maximal(text: &str) -> (b: bool)
    ensures
        b == already_maximal(text@),
{
    includes(text, "already at maximum size") || includes(text, "no space left") || includes(
        text,
        "cannot be grown",
    ) || includes(text, "NOCHANGE")
}

impl ToolOutcomeView {
    /// The tool ran, and one of its two output streams says that the
    /// partition cannot grow any further.
    pub open spec fn reports_maximal(self) -> bool {
        self matches ToolOutcomeView::Exited { stdout, stderr, .. } && (already_maximal(stdout)
            || already_maximal(stderr))
    }

    /// What counts as success of the first grow tool: status 0; status 2,
    /// which it gives where nothing is left to grow; output that says so; or
    /// a failure that printed nothing on its error stream.
    pub open spec fn settles_growth(self) -> bool {
        self matches ToolOutcomeView::Exited { code, stdout, stderr } && (code == Some(0i32)
            || code == Some(2i32) || already_maximal(stdout) || already_maximal(stderr)
            || stderr.len() == 0)
    }
}

impl ToolOutcome {
    /// Whether the tool ran and says that the partition cannot grow any
    /// further.
    pub fn reports_maximal(&self) -> (b: bool)
        ensures
            b == self@.reports_maximal(),
    {
        match self {
            ToolOutcome::Exited { stdout, stderr, .. } => says_already_maximal(stdout.as_str())
                || says_already_maximal(stderr.as_str()),
            ToolOutcome::NotLaunched { .. } => false,
        }
    }

    /// Whether this outcome of the first grow tool counts as success.
    pub fn settles_growth(&self) -> (b: bool)
        ensures
            b == self@.settles_growth(),
    {
        match self {
            ToolOutcome::Exited { code, stdout, stderr } => {
                let by_status = match code {
                    Some(c) => *c == 0 || *c == 2,
                    None => false,
                };
                by_status || says_already_maximal(stdout.as_str()) || says_already_maximal(
                    stderr.as_str(),
                ) || stderr.as_str().is_empty()
            },
            ToolOutcome::NotLaunched { .. } => false,
        }
    }
}

/// Where the growing of a partition stands.
#[derive(Clone, Copy, Debug, PartialEq, Eq, Structural)]
pub enum GrowStage {
    /// The first grow tool runs.
    Growpart,
    /// The first tool has failed; the second one is looked for.
    Locating,
    /// The second tool runs.
    Parted,
    /// There is no second tool; the disk's size is listed in its place.
    Probe,
    /// What the listing printed is handed to the operator.
    Noting,
    Succeeded,
    Failed,
}

/// Grows one partition to the end of its disk: with the first grow tool, and
/// where that fails with the second, if the host has it.
#[derive(Clone, Debug, PartialEq, Eq)]
pub struct GrowPartition {
    disk: String,
    partition: u32,
    stage: GrowStage,
    note: String,
    failure: String,
}

/// What a [`GrowPartition`] holds, with each text as a sequence of characters.
pub ghost struct GrowPartitionView {
    pub disk: Seq<char>,
    pub partition: u32,
    pub stage: GrowStage,
    /// What the listing of the disk's size printed.
    pub note: Seq<char>,
    /// What the last tool said, once the growing has failed.
    pub failure: Seq<char>,
}

impl GrowPartitionView {
    /// The machine before its first tool has run. Without a partition number
    /// the target is a whole disk: nothing is to grow, and that is success.
    pub open spec fn start(disk: Seq<char>, partition: Option<u32>) -> Self {
        match partition {
            Some(n) => GrowPartitionView {
                disk,
                partition: n,
                stage: GrowStage::Growpart,
                note: Seq::empty(),
                failure: Seq::empty(),
            },
            None => GrowPartitionView {
                disk,
                partition: 0,
                stage: GrowStage::Succeeded,
                note: Seq::empty(),
                failure: Seq::empty(),
            },
        }
    }

    /// What the machine asks of the host: nothing once it has ended.
    pub open spec fn request(self) -> RequestView {
        match self.stage {
            GrowStage::Growpart => RequestView::Run(
                InvocationView::new("growpart"@).arg(self.disk).arg(decimal(self.partition as nat)),
            ),
            GrowStage::Locating => RequestView::Locate { tool: "parted"@ },
            GrowStage::Parted => RequestView::Run(
                InvocationView::new("parted"@).arg("--script"@).arg(self.disk).arg(
                    "resizepart"@,
                ).arg(decimal(self.partition as nat)).arg("100%"@),
            ),
            GrowStage::Probe => RequestView::Run(
                InvocationView::new("lsblk"@).arg("-bno"@).arg("SIZE,NAME"@).arg(self.disk),
            ),
            GrowStage::Noting => RequestView::Log {
                level: Level::Info,
                message: "Checking disk space using lsblk: "@ + self.note,
            },
            GrowStage::Succeeded | GrowStage::Failed => RequestView::Done,
        }
    }

    /// The machine stopped: in success, or in failure with what the last
    /// tool said.
    pub open spec fn stopped(self, ok: bool, last: ToolOutcomeView) -> Self {
        if ok {
            GrowPartitionView { stage: GrowStage::Succeeded, ..self }
        } else {
            GrowPartitionView { stage: GrowStage::Failed, failure: last.diagnostic(), ..self }
        }
    }

    /// The machine after the listing of the disk's size. The listing decides
    /// nothing: without a second tool the partition is taken to be as large
    /// as it can be. Where the listing succeeded, what it printed is handed
    /// to the operator first.
    pub open spec fn probed(self, listing: ToolOutcomeView) -> Self {
        match listing {
            ToolOutcomeView::Exited { code, stdout, stderr } => if code == Some(0i32) {
                GrowPartitionView { stage: GrowStage::Noting, note: stdout, ..self }
            } else {
                GrowPartitionView { stage: GrowStage::Succeeded, ..self }
            },
            ToolOutcomeView::NotLaunched { .. } => GrowPartitionView {
                stage: GrowStage::Succeeded,
                ..self
            },
        }
    }

    /// The machine after `reply`. A reply that answers no request of the
    /// machine changes nothing.
    pub open spec fn next(self, reply: ReplyView) -> Self {
        match (self.stage, reply) {
            (GrowStage::Growpart, ReplyView::Tool(outcome)) => if outcome.settles_growth() {
                GrowPartitionView { stage: GrowStage::Succeeded, ..self }
            } else {
                GrowPartitionView { stage: GrowStage::Locating, ..self }
            },
            (GrowStage::Locating, ReplyView::Located(found)) => if found {
                GrowPartitionView { stage: GrowStage::Parted, ..self }
            } else {
                GrowPartitionView { stage: GrowStage::Probe, ..self }
            },
            (GrowStage::Parted, ReplyView::Tool(outcome)) => self.stopped(
                outcome.succeeded() || outcome.reports_maximal(),
                outcome,
            ),
            (GrowStage::Probe, ReplyView::Tool(outcome)) => self.probed(outcome),
            (GrowStage::Noting, ReplyView::Logged) => GrowPartitionView {
                stage: GrowStage::Succeeded,
                ..self
            },
            _ => self,
        }
    }

    /// `None` while the machine waits for the host, then success or the error.
    pub open spec fn result(self) -> Option<Result<(), ResizeErrorView>> {
        match self.stage {
            GrowStage::Succeeded => Some(Ok(())),
            GrowStage::Failed => Some(Err(ResizeErrorView::GrowPartition(self.failure))),
            _ => None,
        }
    }
}

impl View for GrowPartition {
    type V = GrowPartitionView;

    closed spec fn view(&self) -> GrowPartitionView {
        GrowPartitionView {
            disk: self.disk@,
            partition: self.partition,
            stage: self.stage,
            note: self.note@,
            failure: self.failure@,
        }
    }
}

/// Starts growing partition `partition` of `disk` to the end of the disk.
pub fn grow_partition(disk: &str, partition: Option<u32>) -> (m: GrowPartition)
    ensures
        m@ == GrowPartitionView::start(disk@, partition),
{
    match partition {
        Some(n) => GrowPartition {
            disk: disk.to_owned(),
            partition: n,
            stage: GrowStage::Growpart,
            note: String::new(),
            failure: String::new(),
        },
        None => GrowPartition {
            disk: disk.to_owned(),
            partition: 0,
            stage: GrowStage::Succeeded,
            note: String::new(),
            failure: String::new(),
        },
    }
}

impl GrowPartition {
    /// What the machine needs next.
    pub fn request(&self) -> (r: Request)
        ensures
            r@ == self@.request(),
    {
        match self.stage {
            GrowStage::Growpart => {
                let number = string_of(&decimal_of(self.partition as u64));
                Request::Run(
                    Invocation::new("growpart").arg(self.disk.as_str()).arg(number.as_str()),
                )
            },
            GrowStage::Locating => Request::Locate { tool: "parted".to_owned() },
            GrowStage::Parted => {
                let number = string_of(&decimal_of(self.partition as u64));
                Request::Run(
                    Invocation::new("parted").arg("--script").arg(self.disk.as_str()).arg(
                        "resizepart",
                    ).arg(number.as_str()).arg("100%"),
                )
            },
            GrowStage::Probe => Request::Run(
                Invocation::new("lsblk").arg("-bno").arg("SIZE,NAME").arg(self.disk.as_str()),
            ),
            GrowStage::Noting => Request::Log {
                level: Level::Info,
                message: joined("Checking disk space using lsblk: ", self.note.as_str()),
            },
            GrowStage::Succeeded | GrowStage::Failed => Request::Done,
        }
    }

    fn stopped(self, ok: bool, last: &ToolOutcome) -> (m: GrowPartition)
        ensures
            m@ == self@.stopped(ok, last@),
    {
        if ok {
            GrowPartition { stage: GrowStage::Succeeded, ..self }
        } else {
            GrowPartition { stage: GrowStage::Failed, failure: last.diagnostic(), ..self }
        }
    }

    fn probed(self, listing: ToolOutcome) -> (m: GrowPartition)
        ensures
            m@ == self@.probed(listing@),
    {
        let ok = listing.succeeded();
        match listing {
            ToolOutcome::Exited { stdout, .. } => if ok {
                GrowPartition { stage: GrowStage::Noting, note: stdout, ..self }
            } else {
                GrowPartition { stage: GrowStage::Succeeded, ..self }
            },
            ToolOutcome::NotLaunched { .. } => GrowPartition {
                stage: GrowStage::Succeeded,
                ..self
            },
        }
    }

    /// The machine after the host's reply.
    pub fn advance(self, reply: Reply) -> (m: GrowPartition)
        ensures
            m@ == self@.next(reply@),
    {
        match (self.stage, reply) {
            (GrowStage::Growpart, Reply::Tool(outcome)) => if outcome.settles_growth() {
                GrowPartition { stage: GrowStage::Succeeded, ..self }
            } else {
                GrowPartition { stage: GrowStage::Locating, ..self }
            },
            (GrowStage::Locating, Reply::Located(found)) => if found {
                GrowPartition { stage: GrowStage::Parted, ..self }
            } else {
                GrowPartition { stage: GrowStage::Probe, ..self }
            },
            (GrowStage::Parted, Reply::Tool(outcome)) => {
                let ok = outcome.succeeded() || outcome.reports_maximal();
                self.stopped(ok, &outcome)
            },
            (GrowStage::Probe, Reply::Tool(outcome)) => self.probed(outcome),
            (GrowStage::Noting, Reply::Logged) => GrowPartition {
                stage: GrowStage::Succeeded,
                ..self
            },
            _ => self,
        }
    }

    /// `None` while the machine waits for the host, then success or the error.
    pub fn result(&self) -> (r: Option<Result<(), ResizeError>>)
        ensures
            view_outcome(r) == self@.result(),
    {
        match self.stage {
            GrowStage::Succeeded => Some(Ok(())),
            GrowStage::Failed => Some(Err(ResizeError::GrowPartition(self.failure.clone()))),
            _ => None,
        }
    }
}

/// Status 2 of the first grow tool ends the growing in success, whatever the
/// tool printed.
pub proof fn lemma_status_two_is_success(
    disk: Seq<char>,
    partition: u32,
    stdout: Seq<char>,
    stderr: Seq<char>,
)
    ensures
        GrowPartitionView::start(disk, Some(partition)).next(
            ReplyView::Tool(ToolOutcomeView::Exited { code: Some(2i32), stdout, stderr }),
        ).result() == Some(Ok::<(), ResizeErrorView>(())),
{
}

/// A first grow tool that ends with any status and has "no space left" on its
/// error stream ends the growing in success.
pub proof fn lemma_no_space_left_is_success(
    disk: Seq<char>,
    partition: u32,
    code: Option<i32>,
    stdout: Seq<char>,
    stderr: Seq<char>,
)
    requires
        contains(stderr, "no space left"@),
    ensures
        GrowPartitionView::start(disk, Some(partition)).next(
            ReplyView::Tool(ToolOutcomeView::Exited { code, stdout, stderr }),
        ).result() == Some(Ok::<(), ResizeErrorView>(())),
{
}

/// The growing fails in one way only: the first tool has failed without a
/// sign that nothing is left to grow, the host has the second tool, and that
/// has failed in the same way. The error is then what the second tool said.
pub proof fn lemma_growth_fails_only_after_both_tools(m: GrowPartitionView, reply: ReplyView)
    requires
        !(m.stage is Failed),
        m.next(reply).stage is Failed,
    ensures
        m.stage is Parted,
        reply is Tool,
        !reply->Tool_0.succeeded(),
        !reply->Tool_0.reports_maximal(),
        m.next(reply).result() == Some(
            Err::<(), ResizeErrorView>(
                ResizeErrorView::GrowPartition(reply->Tool_0.diagnostic()),
            ),
        ),
{
}

/// A whole disk has no partition to grow: the machine asks for nothing and
/// has succeeded from the start.
pub proof fn lemma_whole_disk_needs_no_growth(disk: Seq<char>)
    ensures
        GrowPartitionView::start(disk, None).request() == RequestView::Done,
        GrowPartitionView::start(disk, None).result() == Some(Ok::<(), ResizeErrorView>(())),
{
}

/// The growing asks for something exactly as long as it has no result.
pub proof fn lemma_growth_asks_until_finished(m: GrowPartitionView)
    ensures
        m.request() is Done <==> m.result() is Some,
{
}

} // verus!
