//! The daemon: a scheduler that watches the sizes of devices and of their
//! parent disks, and works on a device when its size is new or has changed.

use crate::device::{analyze_device, DeviceAnalysis, DeviceAnalysisView};
use crate::grow::{already_maximal, says_already_maximal};
use crate::number::{parse_number, parse_number_in};
use crate::pipeline::{
    device_views, disk_path, process_device, Device, DeviceView, Pipeline, PipelineError,
    PipelineErrorView, PipelineView,
};
use crate::protocol::{
    Invocation, InvocationView, Level, Reply, ReplyView, Request, RequestView, ToolOutcome,
    ToolOutcomeView,
};
use crate::text::{chars_of, debug_form, joined, quoted, shaved, trim, CharClass};
use vstd::hash_map::StringHashMap;
use vstd::prelude::*;

verus! {

/// What a size that was just read means, held against the size on record.
#[derive(Clone, Copy, Debug, PartialEq, Eq, Structural)]
pub enum Sighting {
    /// No size was on record.
    First,
    /// The size differs from the one on record.
    Changed,
    /// The size is the one on record.
    Unchanged,
}

/// What the size `size` of the thing tracked under `key` means, held against
/// the sizes on record.
pub open spec fn sighting(known: Map<Seq<char>, u64>, key: Seq<char>, size: u64) -> Sighting {
    if !known.contains_key(key) {
        Sighting::First
    } else if known[key] != size {
        Sighting::Changed
    } else {
        Sighting::Unchanged
    }
}

/// The sizes last seen, in bytes, by tracking key: the path of a device, or
/// for its parent disk that path with `_parent` behind it.
pub struct DaemonState {
    sizes: StringHashMap<u64>,
}

impl View for DaemonState {
    type V = Map<Seq<char>, u64>;

    closed spec fn view(&self) -> Map<Seq<char>, u64> {
        self.sizes@
    }
}

impl DaemonState {
    /// No size is on record.
    pub fn new() -> (state: DaemonState)
        ensures
            state@ == Map::<Seq<char>, u64>::empty(),
    {
        DaemonState { sizes: StringHashMap::new() }
    }

    /// The size on record under `key`.
    pub fn last_size(&self, key: &str) -> (size: Option<u64>)
        ensures
            size == (if self@.contains_key(key@) {
                Some(self@[key@])
            } else {
                None
            }),
    {
        match self.sizes.get(key) {
            Some(size) => Some(*size),
            None => None,
        }
    }

    /// Puts `size` on record under `key`, and says what it means held against
    /// the size that was there.
    pub fn observe(&mut self, key: &str, size: u64) -> (seen: Sighting)
        ensures
            final(self)@ == old(self)@.insert(key@, size),
            seen == sighting(old(self)@, key@, size),
    {
        let seen = match self.sizes.get(key) {
            Some(last) => if *last != size {
                Sighting::Changed
            } else {
                Sighting::Unchanged
            },
            None => Sighting::First,
        };
        self.sizes.insert(key.to_owned(), size);
        seen
    }
}

/// What the sizes read for one device in one tick have shown so far.
#[derive(Clone, Copy, Debug, PartialEq, Eq, Structural)]
pub struct Watch {
    /// A size was seen for which none was on record.
    pub first_sight: bool,
    /// A size was seen that differs from the one on record.
    pub changed: bool,
}

impl Watch {
    /// Nothing seen yet.
    pub open spec fn nothing() -> Watch {
        Watch { first_sight: false, changed: false }
    }

    /// The watch after one more size was read.
    pub open spec fn noting(self, seen: Sighting) -> Watch {
        Watch {
            first_sight: self.first_sight || seen == Sighting::First,
            changed: self.changed || seen == Sighting::Changed,
        }
    }

    /// Whether the device is to be worked on in this tick: after a first
    /// sight always, after a change of size on every tick but the first one.
    pub open spec fn due(self, first_tick: bool) -> bool {
        self.first_sight || (self.changed && !first_tick)
    }

    /// The watch after one more size was read.
    pub fn note(self, seen: Sighting) -> (w: Watch)
        ensures
            w == self.noting(seen),
    {
        Watch {
            first_sight: self.first_sight || seen == Sighting::First,
            changed: self.changed || seen == Sighting::Changed,
        }
    }

    /// Whether the device is to be worked on in this tick.
    pub fn is_due(self, first_tick: bool) -> (b: bool)
        ensures
            b == self.due(first_tick),
    {
        self.first_sight || (self.changed && !first_tick)
    }
}

/// On the first tick a change of size alone starts no work: the first tick
/// only takes the sizes on record.
pub proof fn lemma_first_tick_only_records(watch: Watch)
    requires
        !watch.first_sight,
    ensures
        !watch.due(true),
{
}

/// A device of which a size is seen for the first time is worked on, on the
/// first tick as on any other.
pub proof fn lemma_first_sight_starts_work(
    known: Map<Seq<char>, u64>,
    key: Seq<char>,
    size: u64,
    watch: Watch,
    first_tick: bool,
)
    requires
        !known.contains_key(key),
    ensures
        watch.noting(sighting(known, key, size)).due(first_tick),
{
}

/// On a later tick, a size that differs from the one on record starts work,
/// and the new size is on record whatever becomes of that work.
pub proof fn lemma_changed_size_starts_work(
    known: Map<Seq<char>, u64>,
    key: Seq<char>,
    size: u64,
    watch: Watch,
)
    requires
        known.contains_key(key),
        known[key] != size,
    ensures
        watch.noting(sighting(known, key, size)).due(false),
        known.insert(key, size)[key] == size,
{
}

/// The command that prints the size of the device at `path` in bytes.
pub open spec fn size_command(path: Seq<char>) -> InvocationView {
    InvocationView::new("blockdev"@).arg("--getsize64"@).arg(path)
}

/// The command that prints the size of the device at `path` in bytes.
pub fn size_query(path: &str) -> (inv: Invocation)
    ensures
        inv@ == size_command(path@),
{
    Invocation::new("blockdev").arg("--getsize64").arg(path)
}

/// The size that the size command has printed: the number on its output,
/// where it succeeded and its output is a number of 64 bits.
pub open spec fn reported_size(outcome: ToolOutcomeView) -> Option<u64> {
    match outcome {
        ToolOutcomeView::Exited { code, stdout, stderr } => if code == Some(0i32) {
            match parse_number(trim(stdout), u64::MAX as nat) {
                Some(n) => Some(n as u64),
                None => None,
            }
        } else {
            None
        },
        ToolOutcomeView::NotLaunched { .. } => None,
    }
}

/// Reads the size that the size command has printed.
pub fn get_device_size(outcome: &ToolOutcome) -> (size: Option<u64>)
    ensures
        size == reported_size(outcome@),
{
    if !outcome.succeeded() {
        return None;
    }
    match outcome {
        ToolOutcome::Exited { stdout, .. } => {
            let text = shaved(&chars_of(stdout.as_str()), CharClass::Whitespace);
            parse_number_in(&text, 0xffff_ffff_ffff_ffff)
        },
        ToolOutcome::NotLaunched { .. } => None,
    }
}

/// The key under which the size of the parent disk of `device` is tracked.
pub open spec fn parent_key(device: Seq<char>) -> Seq<char> {
    device + "_parent"@
}

/// What is reported when the work on `device` has succeeded: that a changed
/// size was followed, or on the first tick that the first check is done;
/// else nothing.
pub open spec fn success_notice(device: Seq<char>, changed: bool, first_tick: bool) -> Option<
    (Level, Seq<char>),
> {
    if changed && !first_tick {
        Some(
            (
                Level::Warn,
                "Successfully resized "@ + debug_form(device) + " after size change"@,
            ),
        )
    } else if first_tick {
        Some((Level::Debug, "Initial resize check completed for "@ + debug_form(device)))
    } else {
        None
    }
}

/// What is reported when the work on `device` has failed. An error that
/// says that nothing was left to grow is no fault, and is reported quietly.
pub open spec fn failure_notice(device: Seq<char>, error: PipelineErrorView) -> (
    Level,
    Seq<char>,
) {
    if already_maximal(error.message()) {
        (Level::Debug, "Device "@ + debug_form(device) + " already at maximum size"@)
    } else {
        (
            Level::Error,
            "Failed to process device "@ + debug_form(device) + ": "@ + error.message(),
        )
    }
}

/// What is reported when the work on `device` has succeeded.
pub fn notice_of_success(device: &str, changed: bool, first_tick: bool) -> (notice: Option<
    (Level, String),
>)
    ensures
        match notice {
            Some((level, text)) => success_notice(device@, changed, first_tick) == Some(
                (level, text@),
            ),
            None => success_notice(device@, changed, first_tick) is None,
        },
{
    if changed && !first_tick {
        let about = quoted(device);
        Some(
            (
                Level::Warn,
                joined("Successfully resized ", about.as_str()).concat(" after size change"),
            ),
        )
    } else if first_tick {
        let about = quoted(device);
        Some((Level::Debug, joined("Initial resize check completed for ", about.as_str())))
    } else {
        None
    }
}

/// What is reported when the work on `device` has failed.
pub fn notice_of_failure(device: &str, error: &PipelineError) -> (notice: (Level, String))
    ensures
        (notice.0, notice.1@) == failure_notice(device@, error@),
{
    let about = quoted(device);
    let message = error.message();
    if says_already_maximal(message.as_str()) {
        (Level::Debug, joined("Device ", about.as_str()).concat(" already at maximum size"))
    } else {
        (
            Level::Error,
            joined("Failed to process device ", about.as_str()).concat(": ").concat(
                message.as_str(),
            ),
        )
    }
}

/// How long to sleep at once, in milliseconds, with `remaining` still due:
/// no longer than a second, so that a request to stop is seen within one.
pub open spec fn nap(remaining: u64) -> u64 {
    if remaining < 1000 {
        remaining
    } else {
        1000
    }
}

/// Where the scheduler stands.
#[derive(Clone, Debug, PartialEq, Eq)]
pub enum DaemonStage {
    /// The cancellation flag is read, with `remaining` milliseconds of sleep
    /// still due before the next tick.
    Pausing { remaining: u64 },
    Sleeping { remaining: u64 },
    Analyzing { index: usize, device: Device, analysis: DeviceAnalysis },
    /// The size of the parent disk at `disk` is read.
    SizingParent { index: usize, device: Device, disk: String },
    SizingDevice { index: usize, device: Device, watch: Watch },
    Processing { index: usize, device: Device, changed: bool, pipeline: Pipeline },
    /// The outcome of the work is reported.
    Reporting { index: usize, level: Level, message: String },
    Stopped,
}

/// What a [`DaemonStage`] holds, with each text as a sequence of characters.
pub ghost enum DaemonStageView {
    Pausing { remaining: u64 },
    Sleeping { remaining: u64 },
    Analyzing { index: usize, device: DeviceView, analysis: DeviceAnalysisView },
    SizingParent { index: usize, device: DeviceView, disk: Seq<char> },
    SizingDevice { index: usize, device: DeviceView, watch: Watch },
    Processing { index: usize, device: DeviceView, changed: bool, pipeline: PipelineView },
    Reporting { index: usize, level: Level, message: Seq<char> },
    Stopped,
}

impl View for DaemonStage {
    type V = DaemonStageView;

    open spec fn view(&self) -> DaemonStageView {
        match self {
            DaemonStage::Pausing { remaining } => DaemonStageView::Pausing {
                remaining: *remaining,
            },
            DaemonStage::Sleeping { remaining } => DaemonStageView::Sleeping {
                remaining: *remaining,
            },
            DaemonStage::Analyzing { index, device, analysis } => DaemonStageView::Analyzing {
                index: *index,
                device: device@,
                analysis: analysis@,
            },
            DaemonStage::SizingParent { index, device, disk } => DaemonStageView::SizingParent {
                index: *index,
                device: device@,
                disk: disk@,
            },
            DaemonStage::SizingDevice { index, device, watch } => DaemonStageView::SizingDevice {
                index: *index,
                device: device@,
                watch: *watch,
            },
            DaemonStage::Processing {
                index,
                device,
                changed,
                pipeline,
            } => DaemonStageView::Processing {
                index: *index,
                device: device@,
                changed: *changed,
                pipeline: pipeline@,
            },
            DaemonStage::Reporting { index, level, message } => DaemonStageView::Reporting {
                index: *index,
                level: *level,
                message: message@,
            },
            DaemonStage::Stopped => DaemonStageView::Stopped,
        }
    }
}

/// The daemon: tick after tick it reads the size of each device and of its
/// parent disk, works on the devices whose size is new or has changed, and
/// sleeps for the interval, until it is asked to stop.
pub struct Scheduler {
    devices: Vec<Device>,
    skip_verify: bool,
    interval: u64,
    known: DaemonState,
    first_tick: bool,
    stage: DaemonStage,
}

/// What a [`Scheduler`] holds, with each text as a sequence of characters.
pub ghost struct SchedulerView {
    pub devices: Seq<DeviceView>,
    pub skip_verify: bool,
    /// The sleep between two ticks, in milliseconds.
    pub interval: u64,
    /// The sizes on record.
    pub known: Map<Seq<char>, u64>,
    /// No tick has ended yet.
    pub first_tick: bool,
    pub stage: DaemonStageView,
}

impl SchedulerView {
    /// The scheduler before its first tick: nothing on record, and the flag
    /// to be read first.
    pub open spec fn start(devices: Seq<DeviceView>, skip_verify: bool, interval: u64) -> Self {
        SchedulerView {
            devices,
            skip_verify,
            interval,
            known: Map::empty(),
            first_tick: true,
            stage: DaemonStageView::Pausing { remaining: 0 },
        }
    }

    /// The scheduler at the device number `index` of a tick, or, where the
    /// tick has gone through all devices, at its end: the first tick is
    /// over, and the sleep begins.
    pub open spec fn at_device(self, index: int) -> Self {
        if 0 <= index < self.devices.len() {
            SchedulerView {
                stage: DaemonStageView::Analyzing {
                    index: index as usize,
                    device: self.devices[index],
                    analysis: DeviceAnalysisView::start(self.devices[index].device),
                },
                ..self
            }
        } else {
            SchedulerView {
                first_tick: false,
                stage: DaemonStageView::Pausing { remaining: self.interval },
                ..self
            }
        }
    }

    /// The scheduler after the size of a device or of its parent disk was
    /// read: the size is on record under `key`, if there is one.
    pub open spec fn recording(self, key: Seq<char>, size: Option<u64>) -> Self {
        match size {
            Some(size) => SchedulerView { known: self.known.insert(key, size), ..self },
            None => self,
        }
    }

    /// What the watch of a device shows after the size under `key` was read.
    pub open spec fn watching(self, watch: Watch, key: Seq<char>, size: Option<u64>) -> Watch {
        match size {
            Some(size) => watch.noting(sighting(self.known, key, size)),
            None => watch,
        }
    }

    /// The scheduler after all sizes of a device were read: at work on the
    /// device where that is due, else at the next device.
    pub open spec fn deciding(self, index: usize, device: DeviceView, watch: Watch) -> Self {
        if watch.due(self.first_tick) {
            SchedulerView {
                stage: DaemonStageView::Processing {
                    index,
                    device,
                    changed: watch.changed,
                    pipeline: PipelineView::start(device, false, self.skip_verify),
                },
                ..self
            }
        } else {
            self.at_device(index + 1)
        }
    }

    /// The scheduler after the work on a device has ended with `result`:
    /// reporting what there is to report, else at the next device.
    pub open spec fn concluding(
        self,
        index: usize,
        device: DeviceView,
        changed: bool,
        result: Result<(), PipelineErrorView>,
    ) -> Self {
        let notice = match result {
            Ok(()) => success_notice(device.device, changed, self.first_tick),
            Err(e) => Some(failure_notice(device.device, e)),
        };
        match notice {
            Some((level, message)) => SchedulerView {
                stage: DaemonStageView::Reporting { index, level, message },
                ..self
            },
            None => self.at_device(index + 1),
        }
    }

    /// The scheduler after `reply`. A reply that answers no request of the
    /// scheduler changes nothing.
    pub open spec fn next(self, reply: ReplyView) -> Self {
        match self.stage {
            DaemonStageView::Pausing { remaining } => match reply {
                ReplyView::Cancel(cancelled) => if cancelled {
                    SchedulerView { stage: DaemonStageView::Stopped, ..self }
                } else if remaining > 0 {
                    SchedulerView { stage: DaemonStageView::Sleeping { remaining }, ..self }
                } else {
                    self.at_device(0)
                },
                _ => self,
            },
            DaemonStageView::Sleeping { remaining } => match reply {
                ReplyView::Slept => SchedulerView {
                    stage: DaemonStageView::Pausing {
                        remaining: (remaining - nap(remaining)) as u64,
                    },
                    ..self
                },
                _ => self,
            },
            DaemonStageView::Analyzing { index, device, analysis } => match analysis.next(
                reply,
            ).result() {
                None => SchedulerView {
                    stage: DaemonStageView::Analyzing {
                        index,
                        device,
                        analysis: analysis.next(reply),
                    },
                    ..self
                },
                Some(Ok(block)) => if block.partition_number is Some {
                    SchedulerView {
                        stage: DaemonStageView::SizingParent {
                            index,
                            device,
                            disk: disk_path(block.disk_name),
                        },
                        ..self
                    }
                } else {
                    SchedulerView {
                        stage: DaemonStageView::SizingDevice {
                            index,
                            device,
                            watch: Watch::nothing(),
                        },
                        ..self
                    }
                },
                Some(Err(_)) => self.at_device(index + 1),
            },
            DaemonStageView::SizingParent { index, device, disk } => match reply {
                ReplyView::Tool(outcome) => {
                    let key = parent_key(device.device);
                    let size = reported_size(outcome);
                    SchedulerView {
                        stage: DaemonStageView::SizingDevice {
                            index,
                            device,
                            watch: self.watching(Watch::nothing(), key, size),
                        },
                        ..self.recording(key, size)
                    }
                },
                _ => self,
            },
            DaemonStageView::SizingDevice { index, device, watch } => match reply {
                ReplyView::Tool(outcome) => {
                    let size = reported_size(outcome);
                    self.recording(device.device, size).deciding(
                        index,
                        device,
                        self.watching(watch, device.device, size),
                    )
                },
                _ => self,
            },
            DaemonStageView::Processing { index, device, changed, pipeline } => match pipeline.next(
                reply,
            ).result() {
                None => SchedulerView {
                    stage: DaemonStageView::Processing {
                        index,
                        device,
                        changed,
                        pipeline: pipeline.next(reply),
                    },
                    ..self
                },
                Some(result) => self.concluding(index, device, changed, result),
            },
            DaemonStageView::Reporting { index, level, message } => match reply {
                ReplyView::Logged => self.at_device(index + 1),
                _ => self,
            },
            DaemonStageView::Stopped => self,
        }
    }

    /// What the machine asks of the host: nothing once it has ended.
    pub open spec fn request(self) -> RequestView {
        match self.stage {
            DaemonStageView::Pausing { remaining } => RequestView::CheckCancel,
            DaemonStageView::Sleeping { remaining } => RequestView::Sleep {
                millis: nap(remaining),
            },
            DaemonStageView::Analyzing { index, device, analysis } => analysis.request(),
            DaemonStageView::SizingParent { index, device, disk } => RequestView::Run(
                size_command(disk),
            ),
            DaemonStageView::SizingDevice { index, device, watch } => RequestView::Run(
                size_command(device.device),
            ),
            DaemonStageView::Processing { index, device, changed, pipeline } => pipeline.request(),
            DaemonStageView::Reporting { index, level, message } => RequestView::Log {
                level,
                message,
            },
            DaemonStageView::Stopped => RequestView::Done,
        }
    }

    /// Whether the scheduler has been stopped.
    pub open spec fn stopped(self) -> bool {
        self.stage is Stopped
    }
}

impl View for Scheduler {
    type V = SchedulerView;

    closed spec fn view(&self) -> SchedulerView {
        SchedulerView {
            devices: device_views(self.devices@),
            skip_verify: self.skip_verify,
            interval: self.interval,
            known: self.known@,
            first_tick: self.first_tick,
            stage: self.stage@,
        }
    }
}

/// Starts the daemon on `devices`, with `interval` milliseconds of sleep
/// between two ticks.
pub fn daemon_loop(devices: Vec<Device>, skip_verify: bool, interval: u64) -> (m: Scheduler)
    ensures
        m@ == SchedulerView::start(device_views(devices@), skip_verify, interval),
{
    Scheduler {
        devices,
        skip_verify,
        interval,
        known: DaemonState::new(),
        first_tick: true,
        stage: DaemonStage::Pausing { remaining: 0 },
    }
}

impl Scheduler {
    /// The size on record under `key`.
    pub fn last_size(&self, key: &str) -> (size: Option<u64>)
        ensures
            size == (if self@.known.contains_key(key@) {
                Some(self@.known[key@])
            } else {
                None
            }),
    {
        self.known.last_size(key)
    }

    /// Whether the scheduler has been stopped.
    pub fn is_stopped(&self) -> (b: bool)
        ensures
            b == self@.stopped(),
    {
        match &self.stage {
            DaemonStage::Stopped => true,
            _ => false,
        }
    }

    /// What the scheduler needs next.
    pub fn request(&self) -> (r: Request)
        ensures
            r@ == self@.request(),
    {
        match &self.stage {
            DaemonStage::Pausing { .. } => Request::CheckCancel,
            DaemonStage::Sleeping { remaining } => Request::Sleep {
                millis: if *remaining < 1000 {
                    *remaining
                } else {
                    1000
                },
            },
            DaemonStage::Analyzing { analysis, .. } => analysis.request(),
            DaemonStage::SizingParent { disk, .. } => Request::Run(size_query(disk.as_str())),
            DaemonStage::SizingDevice { device, .. } => Request::Run(
                size_query(device.device.as_str()),
            ),
            DaemonStage::Processing { pipeline, .. } => pipeline.request(),
            DaemonStage::Reporting { level, message, .. } => Request::Log {
                level: *level,
                message: message.clone(),
            },
            DaemonStage::Stopped => Request::Done,
        }
    }

    fn at_device(self, index: usize) -> (m: Scheduler)
        ensures
            m@ == self@.at_device(index as int),
    {
        if index < self.devices.len() {
            let device = self.devices[index].duplicate();
            let analysis = analyze_device(device.device.as_str());
            Scheduler { stage: DaemonStage::Analyzing { index, device, analysis }, ..self }
        } else {
            Scheduler {
                first_tick: false,
                stage: DaemonStage::Pausing { remaining: self.interval },
                ..self
            }
        }
    }

    fn after_device(self, index: usize) -> (m: Scheduler)
        ensures
            m@ == self@.at_device(index + 1),
    {
        if index < self.devices.len() {
            self.at_device(index + 1)
        } else {
            self.at_device(index)
        }
    }

    fn record(&mut self, watch: Watch, key: &str, size: Option<u64>) -> (w: Watch)
        ensures
            final(self)@ == old(self)@.recording(key@, size),
            w == old(self)@.watching(watch, key@, size),
    {
        match size {
            Some(size) => {
                let seen = self.known.observe(key, size);
                watch.note(seen)
            },
            None => watch,
        }
    }

    fn deciding(self, index: usize, device: Device, watch: Watch) -> (m: Scheduler)
        ensures
            m@ == self@.deciding(index, device@, watch),
    {
        if watch.is_due(self.first_tick) {
            let pipeline = process_device(&device, false, self.skip_verify);
            Scheduler {
                stage: DaemonStage::Processing { index, device, changed: watch.changed, pipeline },
                ..self
            }
        } else {
            self.after_device(index)
        }
    }

    fn concluding(
        self,
        index: usize,
        device: Device,
        changed: bool,
        result: Result<(), PipelineError>,
    ) -> (m: Scheduler)
        ensures
            m@ == self@.concluding(index, device@, changed, crate::protocol::view_result(result)),
    {
        let notice = match result {
            Ok(()) => notice_of_success(device.device.as_str(), changed, self.first_tick),
            Err(e) => Some(notice_of_failure(device.device.as_str(), &e)),
        };
        match notice {
            Some((level, message)) => Scheduler {
                stage: DaemonStage::Reporting { index, level, message },
                ..self
            },
            None => self.after_device(index),
        }
    }

    /// The scheduler after the host's reply.
    pub fn advance(self, reply: Reply) -> (m: Scheduler)
        ensures
            m@ == self@.next(reply@),
    {
        let Scheduler { devices, skip_verify, interval, known, first_tick, stage } = self;
        let mut shell = Scheduler {
            devices,
            skip_verify,
            interval,
            known,
            first_tick,
            stage: DaemonStage::Stopped,
        };
        match stage {
            DaemonStage::Pausing { remaining } => match reply {
                Reply::Cancel(cancelled) => if cancelled {
                    shell
                } else if remaining > 0 {
                    Scheduler { stage: DaemonStage::Sleeping { remaining }, ..shell }
                } else {
                    shell.at_device(0)
                },
                _ => Scheduler { stage: DaemonStage::Pausing { remaining }, ..shell },
            },
            DaemonStage::Sleeping { remaining } => match reply {
                Reply::Slept => {
                    let slept: u64 = if remaining < 1000 {
                        remaining
                    } else {
                        1000
                    };
                    Scheduler {
                        stage: DaemonStage::Pausing { remaining: remaining - slept },
                        ..shell
                    }
                },
                _ => Scheduler { stage: DaemonStage::Sleeping { remaining }, ..shell },
            },
            DaemonStage::Analyzing { index, device, analysis } => {
                let analysis = analysis.advance(reply);
                match analysis.result() {
                    None => Scheduler {
                        stage: DaemonStage::Analyzing { index, device, analysis },
                        ..shell
                    },
                    Some(Ok(block)) => match block.partition_number {
                        Some(_) => {
                            let disk = joined("/dev/", block.disk_name.as_str());
                            Scheduler {
                                stage: DaemonStage::SizingParent { index, device, disk },
                                ..shell
                            }
                        },
                        None => Scheduler {
                            stage: DaemonStage::SizingDevice {
                                index,
                                device,
                                watch: Watch { first_sight: false, changed: false },
                            },
                            ..shell
                        },
                    },
                    Some(Err(_)) => shell.after_device(index),
                }
            },
            DaemonStage::SizingParent { index, device, disk } => match reply {
                Reply::Tool(outcome) => {
                    let key = joined(device.device.as_str(), "_parent");
                    let size = get_device_size(&outcome);
                    let watch = shell.record(
                        Watch { first_sight: false, changed: false },
                        key.as_str(),
                        size,
                    );
                    Scheduler { stage: DaemonStage::SizingDevice { index, device, watch }, ..shell }
                },
                _ => Scheduler {
                    stage: DaemonStage::SizingParent { index, device, disk },
                    ..shell
                },
            },
            DaemonStage::SizingDevice { index, device, watch } => match reply {
                Reply::Tool(outcome) => {
                    let size = get_device_size(&outcome);
                    let watch = shell.record(watch, device.device.as_str(), size);
                    shell.deciding(index, device, watch)
                },
                _ => Scheduler {
                    stage: DaemonStage::SizingDevice { index, device, watch },
                    ..shell
                },
            },
            DaemonStage::Processing { index, device, changed, pipeline } => {
                let pipeline = pipeline.advance(reply);
                match pipeline.result() {
                    None => Scheduler {
                        stage: DaemonStage::Processing { index, device, changed, pipeline },
                        ..shell
                    },
                    Some(result) => shell.concluding(index, device, changed, result),
                }
            },
            DaemonStage::Reporting { index, level, message } => match reply {
                Reply::Logged => shell.after_device(index),
                _ => Scheduler { stage: DaemonStage::Reporting { index, level, message }, ..shell },
            },
            DaemonStage::Stopped => shell,
        }
    }
}

/// Once the size of a device has been read, that size is on record, and the
/// work on the device starts if and only if it is due: the scheduler has
/// seen a size for the first time, or has seen one change and is past its
/// first tick.
pub proof fn lemma_work_starts_when_due(
    s: SchedulerView,
    index: usize,
    device: DeviceView,
    watch: Watch,
    outcome: ToolOutcomeView,
    size: u64,
)
    requires
        s.stage == (DaemonStageView::SizingDevice { index, device, watch }),
        reported_size(outcome) == Some(size),
    ensures
        s.next(ReplyView::Tool(outcome)).known == s.known.insert(device.device, size),
        s.next(ReplyView::Tool(outcome)).stage is Processing <==> watch.noting(
            sighting(s.known, device.device, size),
        ).due(s.first_tick),
{
}

/// On the first tick, a size that differs from one on record starts no work
/// by itself; it only replaces the size on record.
pub proof fn lemma_first_tick_change_starts_no_work(
    s: SchedulerView,
    index: usize,
    device: DeviceView,
    watch: Watch,
    outcome: ToolOutcomeView,
    size: u64,
)
    requires
        s.first_tick,
        s.stage == (DaemonStageView::SizingDevice { index, device, watch }),
        !watch.first_sight,
        s.known.contains_key(device.device),
        reported_size(outcome) == Some(size),
    ensures
        !(s.next(ReplyView::Tool(outcome)).stage is Processing),
        s.next(ReplyView::Tool(outcome)).known[device.device] == size,
{
}

/// On a later tick, a size that differs from the one on record starts the
/// work on the device.
pub proof fn lemma_later_change_starts_work(
    s: SchedulerView,
    index: usize,
    device: DeviceView,
    watch: Watch,
    outcome: ToolOutcomeView,
    size: u64,
)
    requires
        !s.first_tick,
        s.stage == (DaemonStageView::SizingDevice { index, device, watch }),
        s.known.contains_key(device.device),
        s.known[device.device] != size,
        reported_size(outcome) == Some(size),
    ensures
        s.next(ReplyView::Tool(outcome)).stage is Processing,
        s.next(ReplyView::Tool(outcome)).known[device.device] == size,
{
}

/// The work on a device leaves the sizes on record as they are, whether it
/// goes on, succeeds or fails.
pub proof fn lemma_work_keeps_sizes(s: SchedulerView, reply: ReplyView)
    requires
        s.stage is Processing,
    ensures
        s.next(reply).known == s.known,
{
}

impl SchedulerView {
    /// The step that the scheduler is at has not ended yet, and is a step on
    /// one of its devices.
    pub open spec fn wf(self) -> bool {
        &&& self.devices.len() <= usize::MAX
        &&& match self.stage {
            DaemonStageView::Analyzing { index, device, analysis } => {
                &&& index < self.devices.len()
                &&& device == self.devices[index as int]
                &&& analysis.result() is None
            },
            DaemonStageView::SizingParent { index, device, disk } => {
                &&& index < self.devices.len()
                &&& device == self.devices[index as int]
            },
            DaemonStageView::SizingDevice { index, device, watch } => {
                &&& index < self.devices.len()
                &&& device == self.devices[index as int]
            },
            DaemonStageView::Processing { index, device, changed, pipeline } => {
                &&& index < self.devices.len()
                &&& device == self.devices[index as int]
                &&& pipeline.device == device
                &&& pipeline.wf()
                &&& pipeline.result() is None
            },
            DaemonStageView::Reporting { index, level, message } => index < self.devices.len(),
            _ => true,
        }
    }
}

/// The scheduler starts well-formed and stays so; and while it is
/// well-formed, it asks for something until it has been stopped, which only
/// a request to stop brings about.
pub proof fn lemma_scheduler_runs_until_stopped(
    devices: Seq<DeviceView>,
    skip_verify: bool,
    interval: u64,
    s: SchedulerView,
    reply: ReplyView,
)
    ensures
        devices.len() <= usize::MAX ==> SchedulerView::start(devices, skip_verify, interval).wf(),
        s.wf() ==> s.next(reply).wf(),
        s.wf() ==> (s.request() is Done <==> s.stopped()),
        !s.stopped() && s.next(reply).stopped() ==> s.stage is Pausing && reply
            == ReplyView::Cancel(true),
{
    if s.wf() {
        match s.stage {
            DaemonStageView::Processing { index, device, changed, pipeline } => {
                crate::pipeline::lemma_pipeline_asks_until_finished(
                    device,
                    false,
                    s.skip_verify,
                    pipeline,
                    reply,
                );
            },
            DaemonStageView::SizingDevice { index, device, watch } => {
                crate::pipeline::lemma_pipeline_asks_until_finished(
                    device,
                    false,
                    s.skip_verify,
                    PipelineView::start(device, false, s.skip_verify),
                    reply,
                );
            },
            _ => {},
        }
    }
}

/// Between two ticks the scheduler sleeps no longer than a second at once,
/// and reads the cancellation flag before each sleep and before the tick.
pub proof fn lemma_naps_are_short(s: SchedulerView, remaining: u64)
    requires
        s.stage == (DaemonStageView::Sleeping { remaining }),
    ensures
        s.request() matches RequestView::Sleep { millis } && millis <= 1000 && millis
            <= remaining,
        s.next(ReplyView::Slept).request() == RequestView::CheckCancel,
        s.next(ReplyView::Slept).stage == (DaemonStageView::Pausing {
            remaining: (remaining - nap(remaining)) as u64,
        }),
{
}

} // verus!
