//! One run over a list of devices, one device after the other.

use crate::number::{decimal, decimal_of};
use crate::pipeline::{
    device_views, process_device, Device, DeviceView, Pipeline, PipelineErrorView, PipelineView,
};
use crate::protocol::{Level, Reply, ReplyView, Request, RequestView};
use crate::text::{debug_form, joined, quoted, string_of};
use vstd::prelude::*;

verus! {

/// How many of `outcomes` are successes.
pub open spec fn successes(outcomes: Seq<bool>) -> nat
    decreases outcomes.len(),
{
    if outcomes.len() == 0 {
        0
    } else if outcomes.last() {
        successes(outcomes.drop_last()) + 1
    } else {
        successes(outcomes.drop_last())
    }
}

/// There are no more successes than outcomes.
pub proof fn lemma_successes_bounded(outcomes: Seq<bool>)
    ensures
        successes(outcomes) <= outcomes.len(),
    decreases outcomes.len(),
{
    if outcomes.len() > 0 {
        lemma_successes_bounded(outcomes.drop_last());
    }
}

/// How many of `outcomes` are successes.
pub fn count_successes(outcomes: &Vec<bool>) -> (n: usize)
    ensures
        n == successes(outcomes@),
{
    let mut n: usize = 0;
    let mut i: usize = 0;
    while i < outcomes.len()
        invariant
            i <= outcomes.len(),
            n == successes(outcomes@.take(i as int)),
            n <= i,
        decreases outcomes.len() - i,
    {
        assert(outcomes@.take(i + 1).drop_last() =~= outcomes@.take(i as int));
        if outcomes[i] {
            n += 1;
        }
        i += 1;
    }
    assert(outcomes@.take(i as int) =~= outcomes@);
    n
}

/// What is reported when the work on `device` has ended with `result`.
pub open spec fn device_notice(device: Seq<char>, result: Result<(), PipelineErrorView>) -> (
    Level,
    Seq<char>,
) {
    match result {
        Ok(()) => (Level::Info, "Successfully processed device "@ + debug_form(device)),
        Err(e) => (
            Level::Error,
            "Failed to process device "@ + debug_form(device) + ": "@ + e.message(),
        ),
    }
}

/// What is reported at the end of a batch of `total` devices of which
/// `succeeded` were worked on with success.
pub open spec fn summary(succeeded: nat, total: nat) -> (Level, Seq<char>) {
    if total == 0 {
        (Level::Warn, "No devices specified, nothing to do"@)
    } else if succeeded == total {
        (Level::Info, "Operation completed successfully for all devices"@)
    } else {
        (
            Level::Info,
            "Operation completed with "@ + decimal(succeeded) + "/"@ + decimal(total)
                + " devices processed successfully"@,
        )
    }
}

/// Where a batch stands.
#[derive(Clone, Debug, PartialEq, Eq)]
pub enum BatchStage {
    Working { index: usize, pipeline: Pipeline },
    /// The outcome of the work on a device is reported.
    Reporting { index: usize, level: Level, message: String },
    /// The summary is reported.
    Summing,
    Finished,
}

/// What a [`BatchStage`] holds, with each text as a sequence of characters.
pub ghost enum BatchStageView {
    Working { index: usize, pipeline: PipelineView },
    Reporting { index: usize, level: Level, message: Seq<char> },
    Summing,
    Finished,
}

impl View for BatchStage {
    type V = BatchStageView;

    open spec fn view(&self) -> BatchStageView {
        match self {
            BatchStage::Working { index, pipeline } => BatchStageView::Working {
                index: *index,
                pipeline: pipeline@,
            },
            BatchStage::Reporting { index, level, message } => BatchStageView::Reporting {
                index: *index,
                level: *level,
                message: message@,
            },
            BatchStage::Summing => BatchStageView::Summing,
            BatchStage::Finished => BatchStageView::Finished,
        }
    }
}

/// A batch: the work on each of a list of devices, one after the other. A
/// device on which the work fails does not stop the batch.
#[derive(Clone, Debug, PartialEq, Eq)]
pub struct Batch {
    devices: Vec<Device>,
    dry_run: bool,
    skip_verify: bool,
    outcomes: Vec<bool>,
    stage: BatchStage,
}

/// What a [`Batch`] holds, with each text as a sequence of characters.
pub ghost struct BatchView {
    pub devices: Seq<DeviceView>,
    pub dry_run: bool,
    pub skip_verify: bool,
    /// Whether the work succeeded, for each device on which it has ended.
    pub outcomes: Seq<bool>,
    pub stage: BatchStageView,
}

impl BatchView {
    /// The batch at the device number `index`, or past the last one at its
    /// summary.
    pub open spec fn at_device(self, index: int) -> Self {
        if 0 <= index < self.devices.len() {
            BatchView {
                stage: BatchStageView::Working {
                    index: index as usize,
                    pipeline: PipelineView::start(
                        self.devices[index],
                        self.dry_run,
                        self.skip_verify,
                    ),
                },
                ..self
            }
        } else {
            BatchView { stage: BatchStageView::Summing, ..self }
        }
    }

    /// The batch at its first device, with no outcome on record.
    pub open spec fn start(devices: Seq<DeviceView>, dry_run: bool, skip_verify: bool) -> Self {
        (BatchView {
            devices,
            dry_run,
            skip_verify,
            outcomes: Seq::empty(),
            stage: BatchStageView::Summing,
        }).at_device(0)
    }

    /// The batch after `reply`. The work on a device that has ended, in
    /// success or not, is put on record and reported; then the next device
    /// follows. A reply that answers no request of the batch changes nothing.
    pub open spec fn next(self, reply: ReplyView) -> Self {
        match self.stage {
            BatchStageView::Working { index, pipeline } => match pipeline.next(reply).result() {
                None => BatchView {
                    stage: BatchStageView::Working { index, pipeline: pipeline.next(reply) },
                    ..self
                },
                Some(result) => BatchView {
                    outcomes: self.outcomes.push(result is Ok),
                    stage: BatchStageView::Reporting {
                        index,
                        level: device_notice(pipeline.device.device, result).0,
                        message: device_notice(pipeline.device.device, result).1,
                    },
                    ..self
                },
            },
            BatchStageView::Reporting { index, level, message } => match reply {
                ReplyView::Logged => self.at_device(index + 1),
                _ => self,
            },
            BatchStageView::Summing => match reply {
                ReplyView::Logged => BatchView { stage: BatchStageView::Finished, ..self },
                _ => self,
            },
            BatchStageView::Finished => self,
        }
    }

    /// What the machine asks of the host: nothing once it has ended.
    pub open spec fn request(self) -> RequestView {
        match self.stage {
            BatchStageView::Working { index, pipeline } => pipeline.request(),
            BatchStageView::Reporting { index, level, message } => RequestView::Log {
                level,
                message,
            },
            BatchStageView::Summing => RequestView::Log {
                level: summary(successes(self.outcomes), self.devices.len()).0,
                message: summary(successes(self.outcomes), self.devices.len()).1,
            },
            BatchStageView::Finished => RequestView::Done,
        }
    }

    /// Whether the batch has gone through all devices and said so.
    pub open spec fn finished(self) -> bool {
        self.stage is Finished
    }
}

impl View for Batch {
    type V = BatchView;

    closed spec fn view(&self) -> BatchView {
        BatchView {
            devices: device_views(self.devices@),
            dry_run: self.dry_run,
            skip_verify: self.skip_verify,
            outcomes: self.outcomes@,
            stage: self.stage@,
        }
    }
}

/// Starts the work on `devices`, one after the other.
pub fn process_all(devices: Vec<Device>, dry_run: bool, skip_verify: bool) -> (m: Batch)
    ensures
        m@ == BatchView::start(device_views(devices@), dry_run, skip_verify),
{
    let batch = Batch {
        devices,
        dry_run,
        skip_verify,
        outcomes: Vec::new(),
        stage: BatchStage::Summing,
    };
    batch.at_device(0)
}

impl Batch {
    fn at_device(self, index: usize) -> (m: Batch)
        ensures
            m@ == self@.at_device(index as int),
    {
        if index < self.devices.len() {
            let pipeline = process_device(&self.devices[index], self.dry_run, self.skip_verify);
            Batch { stage: BatchStage::Working { index, pipeline }, ..self }
        } else {
            Batch { stage: BatchStage::Summing, ..self }
        }
    }

    /// How many devices were worked on with success so far.
    pub fn succeeded(&self) -> (n: usize)
        ensures
            n == successes(self@.outcomes),
    {
        count_successes(&self.outcomes)
    }

    /// Whether the batch has gone through all devices and said so.
    pub fn is_finished(&self) -> (b: bool)
        ensures
            b == self@.finished(),
    {
        match &self.stage {
            BatchStage::Finished => true,
            _ => false,
        }
    }

    /// What the batch needs next.
    pub fn request(&self) -> (r: Request)
        ensures
            r@ == self@.request(),
    {
        match &self.stage {
            BatchStage::Working { pipeline, .. } => pipeline.request(),
            BatchStage::Reporting { level, message, .. } => Request::Log {
                level: *level,
                message: message.clone(),
            },
            BatchStage::Summing => {
                let succeeded = count_successes(&self.outcomes);
                let total = self.devices.len();
                if total == 0 {
                    Request::Log {
                        level: Level::Warn,
                        message: "No devices specified, nothing to do".to_owned(),
                    }
                } else if succeeded == total {
                    Request::Log {
                        level: Level::Info,
                        message: "Operation completed successfully for all devices".to_owned(),
                    }
                } else {
                    let done = string_of(&decimal_of(succeeded as u64));
                    let all = string_of(&decimal_of(total as u64));
                    Request::Log {
                        level: Level::Info,
                        message: joined("Operation completed with ", done.as_str()).concat(
                            "/",
                        ).concat(all.as_str()).concat(" devices processed successfully"),
                    }
                }
            },
            BatchStage::Finished => Request::Done,
        }
    }

    /// The batch after the host's reply.
    pub fn advance(self, reply: Reply) -> (m: Batch)
        ensures
            m@ == self@.next(reply@),
    {
        let Batch { devices, dry_run, skip_verify, outcomes, stage } = self;
        let mut shell = Batch {
            devices,
            dry_run,
            skip_verify,
            outcomes,
            stage: BatchStage::Finished,
        };
        match stage {
            BatchStage::Working { index, pipeline } => {
                let about = pipeline.device_path();
                let pipeline = pipeline.advance(reply);
                match pipeline.result() {
                    None => Batch { stage: BatchStage::Working { index, pipeline }, ..shell },
                    Some(result) => {
                        let about = quoted(about.as_str());
                        let (level, message) = match &result {
                            Ok(()) => (
                                Level::Info,
                                joined("Successfully processed device ", about.as_str()),
                            ),
                            Err(e) => {
                                let why = e.message();
                                (
                                    Level::Error,
                                    joined("Failed to process device ", about.as_str()).concat(
                                        ": ",
                                    ).concat(why.as_str()),
                                )
                            },
                        };
                        shell.outcomes.push(result.is_ok());
                        Batch { stage: BatchStage::Reporting { index, level, message }, ..shell }
                    },
                }
            },
            BatchStage::Reporting { index, level, message } => match reply {
                Reply::Logged => if index < shell.devices.len() {
                    shell.at_device(index + 1)
                } else {
                    shell.at_device(index)
                },
                _ => Batch { stage: BatchStage::Reporting { index, level, message }, ..shell },
            },
            BatchStage::Summing => match reply {
                Reply::Logged => shell,
                _ => Batch { stage: BatchStage::Summing, ..shell },
            },
            BatchStage::Finished => shell,
        }
    }
}

impl BatchView {
    /// The step that the batch is at has not ended yet, and there is one
    /// outcome on record for each device before the one at work.
    pub open spec fn wf(self) -> bool {
        &&& self.devices.len() <= usize::MAX
        &&& match self.stage {
            BatchStageView::Working { index, pipeline } => {
                &&& index < self.devices.len()
                &&& self.outcomes.len() == index
                &&& pipeline.wf()
                &&& pipeline.result() is None
            },
            BatchStageView::Reporting { index, level, message } => {
                &&& index < self.devices.len()
                &&& self.outcomes.len() == index + 1
            },
            _ => self.outcomes.len() == self.devices.len(),
        }
    }
}

/// A batch starts well-formed and stays so; while it is well-formed, it asks
/// for something exactly until it has finished, and when it has, there is
/// one outcome on record for each device.
pub proof fn lemma_batch_works_on_every_device(
    devices: Seq<DeviceView>,
    dry_run: bool,
    skip_verify: bool,
    b: BatchView,
    reply: ReplyView,
)
    ensures
        devices.len() <= usize::MAX ==> BatchView::start(devices, dry_run, skip_verify).wf(),
        b.wf() ==> b.next(reply).wf(),
        b.wf() ==> (b.request() is Done <==> b.finished()),
        b.wf() && b.finished() ==> b.outcomes.len() == b.devices.len(),
{
    if devices.len() > 0 {
        crate::pipeline::lemma_pipeline_asks_until_finished(
            devices[0],
            dry_run,
            skip_verify,
            PipelineView::start(devices[0], dry_run, skip_verify),
            reply,
        );
    }
    if b.wf() {
        match b.stage {
            BatchStageView::Working { index, pipeline } => {
                crate::pipeline::lemma_pipeline_asks_until_finished(
                    pipeline.device,
                    b.dry_run,
                    b.skip_verify,
                    pipeline,
                    reply,
                );
            },
            BatchStageView::Reporting { index, level, message } => {
                if index + 1 < b.devices.len() {
                    crate::pipeline::lemma_pipeline_asks_until_finished(
                        b.devices[index + 1],
                        b.dry_run,
                        b.skip_verify,
                        PipelineView::start(b.devices[index + 1], b.dry_run, b.skip_verify),
                        reply,
                    );
                }
            },
            _ => {},
        }
    }
}

} // verus!
