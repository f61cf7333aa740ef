//! Encrypted containers: the probe for one, the search for its unlocked
//! volume, and its growth.

use crate::protocol::{
    view_outcome, view_result, Invocation, InvocationView, Reply, ReplyView, Request, RequestView,
    ToolOutcome, ToolOutcomeView,
};
use crate::resize::{ResizeError, ResizeErrorView};
use crate::text::{
    chars_of, contains, debug_form, has_substring, joined, lines, lines_of, quoted, shaved,
    string_of, trim, views, CharClass,
};
use vstd::prelude::*;

verus! {

/// The command that tells whether `device` holds an encrypted container.
pub open spec fn probe_command(device: Seq<char>) -> InvocationView {
    InvocationView::new("cryptsetup"@).arg("isLuks"@).arg(device)
}

/// The command that tells whether `device` holds an encrypted container.
pub fn luks_probe(device: &str) -> (inv: Invocation)
    ensures
        inv@ == probe_command(device@),
{
    Invocation::new("cryptsetup").arg("isLuks").arg(device)
}

/// Whether the probe has found an encrypted container. A probe that fails,
/// or cannot be started, has found none.
pub fn is_luks(outcome: &ToolOutcome) -> (b: bool)
    ensures
        b == outcome@.succeeded(),
{
    outcome.succeeded()
}

/// The command that lists the devices that stand on `device`.
pub open spec fn mapper_command(device: Seq<char>) -> InvocationView {
    InvocationView::new("lsblk"@).arg("-lpno"@).arg("NAME"@).arg(device)
}

/// The command that lists the devices that stand on `device`.
pub fn mapper_query(device: &str) -> (inv: Invocation)
    ensures
        inv@ == mapper_command(device@),
{
    Invocation::new("lsblk").arg("-lpno").arg("NAME").arg(device)
}

/// The first of `lines` that names a mapper device, without the whitespace
/// around it.
pub open spec fn first_mapper(lines: Seq<Seq<char>>) -> Option<Seq<char>>
    decreases lines.len(),
{
    if lines.len() == 0 {
        None
    } else if contains(lines[0], "mapper"@) {
        Some(trim(lines[0]))
    } else {
        first_mapper(lines.drop_first())
    }
}

/// The path of the unlocked volume of the container on `device`, from the
/// listing of the devices that stand on it: the first line that names a
/// mapper device. The error is a text: why the listing did not start, or
/// that it names no mapper device.
pub open spec fn mapper_path(device: Seq<char>, outcome: ToolOutcomeView) -> Result<
    Seq<char>,
    Seq<char>,
> {
    match outcome {
        ToolOutcomeView::NotLaunched { reason } => Err(reason),
        ToolOutcomeView::Exited { code, stdout, stderr } => match first_mapper(lines(stdout)) {
            Some(path) => Ok(path),
            None => Err("Could not find LUKS mapper device for "@ + debug_form(device)),
        },
    }
}

/// The first line of `listing` that names a mapper device, without the
/// whitespace around it.
pub fn mapper_in(listing: &str) -> (path: Option<String>)
    ensures
        path.deep_view() == first_mapper(lines(listing@)),
{
    let needle = chars_of("mapper");
    let all = lines_of(&chars_of(listing));
    let mut i: usize = 0;
    assert(views(all@).skip(0) =~= views(all@));
    while i < all.len()
        invariant
            i <= all.len(),
            needle@ == "mapper"@,
            views(all@) == lines(listing@),
            first_mapper(views(all@)) == first_mapper(views(all@).skip(i as int)),
        decreases all.len() - i,
    {
        proof {
            assert(views(all@).skip(i as int).drop_first() =~= views(all@).skip(i + 1));
        }
        if has_substring(&all[i], &needle) {
            return Some(string_of(&shaved(&all[i], CharClass::Whitespace)));
        }
        i += 1;
    }
    None
}

/// Reads the path of the unlocked volume of the container on `device` from
/// the outcome of the listing.
pub fn find_luks_mapper(device: &str, outcome: &ToolOutcome) -> (r: Result<String, String>)
    ensures
        view_result(r) == mapper_path(device@, outcome@),
{
    match outcome {
        ToolOutcome::NotLaunched { reason } => Err(reason.clone()),
        ToolOutcome::Exited { stdout, .. } => match mapper_in(stdout.as_str()) {
            Some(path) => Ok(path),
            None => {
                let about = quoted(device);
                Err(joined("Could not find LUKS mapper device for ", about.as_str()))
            },
        },
    }
}

/// Growing the container of an encrypted volume: one tool, run once.
#[derive(Clone, Copy, Debug, PartialEq, Eq, Structural)]
pub enum LuksStage {
    Resizing,
    Succeeded,
    /// The tool ran and reported failure.
    Rejected,
    /// The tool could not be started.
    NotRun,
}

/// Grows the container of an encrypted volume to the size of its device.
#[derive(Clone, Debug, PartialEq, Eq)]
pub struct LuksResize {
    device: String,
    stage: LuksStage,
    failure: String,
}

/// What a [`LuksResize`] holds, with each text as a sequence of characters.
pub ghost struct LuksResizeView {
    pub device: Seq<char>,
    pub stage: LuksStage,
    pub failure: Seq<char>,
}

impl LuksResizeView {
    /// The machine before the tool has run.
    pub open spec fn start(device: Seq<char>) -> Self {
        LuksResizeView { device, stage: LuksStage::Resizing, failure: Seq::empty() }
    }

    /// What the machine asks of the host: nothing once it has ended.
    pub open spec fn request(self) -> RequestView {
        match self.stage {
            LuksStage::Resizing => RequestView::Run(
                InvocationView::new("cryptsetup"@).arg("resize"@).arg(self.device),
            ),
            _ => RequestView::Done,
        }
    }

    /// The machine after `reply`: stopped by the tool's outcome, with the
    /// tool's error stream, or with the reason it did not start, as the text
    /// of a failure. A reply that answers no request of the machine changes
    /// nothing.
    pub open spec fn next(self, reply: ReplyView) -> Self {
        match (self.stage, reply) {
            (LuksStage::Resizing, ReplyView::Tool(outcome)) => if outcome.succeeded() {
                LuksResizeView { stage: LuksStage::Succeeded, ..self }
            } else if outcome is Exited {
                LuksResizeView {
                    stage: LuksStage::Rejected,
                    failure: outcome.diagnostic(),
                    ..self
                }
            } else {
                LuksResizeView { stage: LuksStage::NotRun, failure: outcome.diagnostic(), ..self }
            },
            _ => self,
        }
    }

    /// `None` while the tool is awaited, then success or the error.
    pub open spec fn result(self) -> Option<Result<(), ResizeErrorView>> {
        match self.stage {
            LuksStage::Resizing => None,
            LuksStage::Succeeded => Some(Ok(())),
            LuksStage::Rejected => Some(Err(ResizeErrorView::ResizeLuks(self.failure))),
            LuksStage::NotRun => Some(Err(ResizeErrorView::CommandFailed(self.failure))),
        }
    }
}

impl View for LuksResize {
    type V = LuksResizeView;

    closed spec fn view(&self) -> LuksResizeView {
        LuksResizeView { device: self.device@, stage: self.stage, failure: self.failure@ }
    }
}

/// Starts growing the encrypted container `device`.
pub fn resize_luks(device: &str) -> (m: LuksResize)
    ensures
        m@ == LuksResizeView::start(device@),
{
    LuksResize { device: device.to_owned(), stage: LuksStage::Resizing, failure: String::new() }
}

impl LuksResize {
    /// What the machine needs next.
    pub fn request(&self) -> (r: Request)
        ensures
            r@ == self@.request(),
    {
        match self.stage {
            LuksStage::Resizing => Request::Run(
                Invocation::new("cryptsetup").arg("resize").arg(self.device.as_str()),
            ),
            _ => Request::Done,
        }
    }

    /// The machine after the host's reply.
    pub fn advance(self, reply: Reply) -> (m: LuksResize)
        ensures
            m@ == self@.next(reply@),
    {
        match (self.stage, reply) {
            (LuksStage::Resizing, Reply::Tool(outcome)) => if outcome.succeeded() {
                LuksResize { stage: LuksStage::Succeeded, ..self }
            } else {
                let failure = outcome.diagnostic();
                match outcome {
                    ToolOutcome::Exited { .. } => LuksResize {
                        stage: LuksStage::Rejected,
                        failure,
                        ..self
                    },
                    ToolOutcome::NotLaunched { .. } => LuksResize {
                        stage: LuksStage::NotRun,
                        failure,
                        ..self
                    },
                }
            },
            _ => self,
        }
    }

    /// `None` while the tool is awaited, then success or the error.
    pub fn result(&self) -> (r: Option<Result<(), ResizeError>>)
        ensures
            view_outcome(r) == self@.result(),
    {
        match self.stage {
            LuksStage::Resizing => None,
            LuksStage::Succeeded => Some(Ok(())),
            LuksStage::Rejected => Some(Err(ResizeError::ResizeLuks(self.failure.clone()))),
            LuksStage::NotRun => Some(Err(ResizeError::CommandFailed(self.failure.clone()))),
        }
    }
}

/// The growing of a container asks for something exactly as long as it has
/// no result.
pub proof fn lemma_container_resize_asks_until_finished(m: LuksResizeView)
    ensures
        m.request() is Done <==> m.result() is Some,
{
}

} // verus!
