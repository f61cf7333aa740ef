//! Detection of the filesystem type that a device really holds.

use crate::protocol::{
    view_outcome, Invocation, InvocationView, Reply, ReplyView, Request, RequestView, ToolOutcome,
    ToolOutcomeView,
};
use crate::resize::{ResizeError, ResizeErrorView};
use crate::text::{chars_of, contains, fold_case, folded, has_substring, trim, trimmed};
use vstd::prelude::*;

verus! {

/// What a probe that prints the filesystem type, and nothing else, has found:
/// its output without the whitespace around it, where it succeeded and that
/// text is not empty.
pub open spec fn probed_type(outcome: ToolOutcomeView) -> Option<Seq<char>> {
    match outcome {
        ToolOutcomeView::Exited { code, stdout, stderr } => if code == Some(0i32) && trim(
            stdout,
        ).len() > 0 {
            Some(trim(stdout))
        } else {
            None
        },
        ToolOutcomeView::NotLaunched { .. } => None,
    }
}

/// The filesystem type that a free-text description names, ASCII case
/// ignored: the first of ext4, xfs and btrfs that occurs in it.
pub open spec fn described_type(description: Seq<char>) -> Option<Seq<char>> {
    let lowered = folded(description);
    if contains(lowered, "ext4"@) {
        Some("ext4"@)
    } else if contains(lowered, "xfs"@) {
        Some("xfs"@)
    } else if contains(lowered, "btrfs"@) {
        Some("btrfs"@)
    } else {
        None
    }
}

/// What the file-type identification tool has found: the type that its
/// output names, where it succeeded.
pub open spec fn identified_type(outcome: ToolOutcomeView) -> Option<Seq<char>> {
    match outcome {
        ToolOutcomeView::Exited { code, stdout, stderr } => if code == Some(0i32) {
            described_type(stdout)
        } else {
            None
        },
        ToolOutcomeView::NotLaunched { .. } => None,
    }
}

/// What a probe that prints the filesystem type has found.
pub fn probe_answer(outcome: &ToolOutcome) -> (found: Option<String>)
    ensures
        found.deep_view() == probed_type(outcome@),
{
    if !outcome.succeeded() {
        return None;
    }
    match outcome {
        ToolOutcome::Exited { stdout, .. } => {
            let found = trimmed(stdout.as_str());
            if found.as_str().is_empty() {
                None
            } else {
                Some(found)
            }
        },
        ToolOutcome::NotLaunched { .. } => None,
    }
}

/// The filesystem type that a free-text description names.
pub fn describe_answer(description: &str) -> (found: Option<String>)
    ensures
        found.deep_view() == described_type(description@),
{
    let lowered = fold_case(&chars_of(description));
    if has_substring(&lowered, &chars_of("ext4")) {
        Some("ext4".to_owned())
    } else if has_substring(&lowered, &chars_of("xfs")) {
        Some("xfs".to_owned())
    } else if has_substring(&lowered, &chars_of("btrfs")) {
        Some("btrfs".to_owned())
    } else {
        None
    }
}

/// What the file-type identification tool has found.
pub fn identify_answer(outcome: &ToolOutcome) -> (found: Option<String>)
    ensures
        found.deep_view() == identified_type(outcome@),
{
    if !outcome.succeeded() {
        return None;
    }
    match outcome {
        ToolOutcome::Exited { stdout, .. } => describe_answer(stdout.as_str()),
        ToolOutcome::NotLaunched { .. } => None,
    }
}

/// Where the detection of a filesystem type stands.
#[derive(Clone, Copy, Debug, PartialEq, Eq, Structural)]
pub enum DetectStage {
    /// The metadata probe runs.
    Blkid,
    /// The topology query runs.
    Lsblk,
    /// The file-type identification tool runs.
    File,
    Found,
    Failed,
}

/// Finds out which filesystem a device really holds, by up to three tools in
/// turn: the first that names a type decides.
#[derive(Clone, Debug, PartialEq, Eq)]
pub struct FsDetection {
    device: String,
    stage: DetectStage,
    found: String,
}

/// What an [`FsDetection`] holds, with each text as a sequence of characters.
pub ghost struct FsDetectionView {
    pub device: Seq<char>,
    pub stage: DetectStage,
    pub found: Seq<char>,
}

impl FsDetectionView {
    /// The machine before its first tool has run.
    pub open spec fn start(device: Seq<char>) -> Self {
        FsDetectionView { device, stage: DetectStage::Blkid, found: Seq::empty() }
    }

    /// What the machine asks of the host: nothing once it has ended.
    pub open spec fn request(self) -> RequestView {
        match self.stage {
            DetectStage::Blkid => RequestView::Run(
                InvocationView::new("blkid"@).arg("-s"@).arg("TYPE"@).arg("-o"@).arg("value"@).arg(
                    self.device,
                ),
            ),
            DetectStage::Lsblk => RequestView::Run(
                InvocationView::new("lsblk"@).arg("-ndo"@).arg("FSTYPE"@).arg(self.device),
            ),
            DetectStage::File => RequestView::Run(
                InvocationView::new("file"@).arg("-Ls"@).arg(self.device),
            ),
            DetectStage::Found | DetectStage::Failed => RequestView::Done,
        }
    }

    /// The machine after a tool has answered: stopped where it named a type,
    /// else at `otherwise`.
    pub open spec fn settled(self, answer: Option<Seq<char>>, otherwise: DetectStage) -> Self {
        match answer {
            Some(found) => FsDetectionView { stage: DetectStage::Found, found, ..self },
            None => FsDetectionView { stage: otherwise, ..self },
        }
    }

    /// The machine after `reply`. A tool that fails, in whatever way, only
    /// hands over to the next one. A reply that answers no request of the
    /// machine changes nothing.
    pub open spec fn next(self, reply: ReplyView) -> Self {
        match (self.stage, reply) {
            (DetectStage::Blkid, ReplyView::Tool(outcome)) => self.settled(
                probed_type(outcome),
                DetectStage::Lsblk,
            ),
            (DetectStage::Lsblk, ReplyView::Tool(outcome)) => self.settled(
                probed_type(outcome),
                DetectStage::File,
            ),
            (DetectStage::File, ReplyView::Tool(outcome)) => self.settled(
                identified_type(outcome),
                DetectStage::Failed,
            ),
            _ => self,
        }
    }

    /// `None` while a tool is awaited, then the type or the error, which
    /// names the device.
    pub open spec fn result(self) -> Option<Result<Seq<char>, ResizeErrorView>> {
        match self.stage {
            DetectStage::Found => Some(Ok(self.found)),
            DetectStage::Failed => Some(Err(ResizeErrorView::DetectFs(self.device))),
            _ => None,
        }
    }
}

impl View for FsDetection {
    type V = FsDetectionView;

    closed spec fn view(&self) -> FsDetectionView {
        FsDetectionView { device: self.device@, stage: self.stage, found: self.found@ }
    }
}

/// Starts finding out which filesystem `device` holds.
pub fn get_fs_type(device: &str) -> (m: FsDetection)
    ensures
        m@ == FsDetectionView::start(device@),
{
    FsDetection { device: device.to_owned(), stage: DetectStage::Blkid, found: String::new() }
}

impl FsDetection {
    /// What the machine needs next.
    pub fn request(&self) -> (r: Request)
        ensures
            r@ == self@.request(),
    {
        match self.stage {
            DetectStage::Blkid => Request::Run(
                Invocation::new("blkid").arg("-s").arg("TYPE").arg("-o").arg("value").arg(
                    self.device.as_str(),
                ),
            ),
            DetectStage::Lsblk => Request::Run(
                Invocation::new("lsblk").arg("-ndo").arg("FSTYPE").arg(self.device.as_str()),
            ),
            DetectStage::File => Request::Run(
                Invocation::new("file").arg("-Ls").arg(self.device.as_str()),
            ),
            DetectStage::Found | DetectStage::Failed => Request::Done,
        }
    }

    fn settled(self, answer: Option<String>, otherwise: DetectStage) -> (m: FsDetection)
        ensures
            m@ == self@.settled(answer.deep_view(), otherwise),
    {
        match answer {
            Some(found) => FsDetection { stage: DetectStage::Found, found, ..self },
            None => FsDetection { stage: otherwise, ..self },
        }
    }

    /// The machine after the host's reply.
    pub fn advance(self, reply: Reply) -> (m: FsDetection)
        ensures
            m@ == self@.next(reply@),
    {
        match (self.stage, reply) {
            (DetectStage::Blkid, Reply::Tool(outcome)) => {
                let answer = probe_answer(&outcome);
                self.settled(answer, DetectStage::Lsblk)
            },
            (DetectStage::Lsblk, Reply::Tool(outcome)) => {
                let answer = probe_answer(&outcome);
                self.settled(answer, DetectStage::File)
            },
            (DetectStage::File, Reply::Tool(outcome)) => {
                let answer = identify_answer(&outcome);
                self.settled(answer, DetectStage::Failed)
            },
            _ => self,
        }
    }

    /// `None` while a tool is awaited, then the type or the error.
    pub fn result(&self) -> (r: Option<Result<String, ResizeError>>)
        ensures
            view_outcome(r) == self@.result(),
    {
        match self.stage {
            DetectStage::Found => Some(Ok(self.found.clone())),
            DetectStage::Failed => Some(Err(ResizeError::DetectFs(self.device.clone()))),
            _ => None,
        }
    }
}

/// Detection asks for something exactly as long as it has no result.
pub proof fn lemma_detection_asks_until_finished(m: FsDetectionView)
    ensures
        m.request() is Done <==> m.result() is Some,
{
}

} // verus!
