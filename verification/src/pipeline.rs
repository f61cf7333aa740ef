//! The work on one device, from its analysis to the report of its new
//! capacity.

use crate::device::{
    analyze_device, BlockDevice, BlockDeviceView, DeviceAnalysis, DeviceAnalysisView, DeviceError,
    DeviceErrorView,
};
use crate::filesystem::{resize_filesystem, FilesystemResize, FilesystemResizeView};
use crate::grow::{grow_partition, GrowPartition, GrowPartitionView};
use crate::luks::{
    find_luks_mapper, is_luks, luks_probe, mapper_command, mapper_path, mapper_query, probe_command,
    resize_luks, LuksResize, LuksResizeView,
};
use crate::number::{decimal, decimal_of};
use crate::protocol::{view_outcome, Level, Reply, ReplyView, Request, RequestView, ToolOutcomeView};
use crate::resize::{ResizeError, ResizeErrorView};
use crate::text::{debug_form, joined, quoted, string_of};
use crate::verify::{verify_resize, VerifyResize, VerifyResizeView};
use vstd::prelude::*;

verus! {

/// The filesystem types that a device can be declared to hold.
#[derive(Clone, Copy, Debug, PartialEq, Eq, Structural)]
pub enum FileSystem {
    Ext4,
    Xfs,
    Btrfs,
}

impl FileSystem {
    /// The name of the type as the tools write it.
    pub open spec fn name(self) -> Seq<char> {
        match self {
            FileSystem::Ext4 => "ext4"@,
            FileSystem::Xfs => "xfs"@,
            FileSystem::Btrfs => "btrfs"@,
        }
    }

    /// The name of the type as the tools write it.
    pub fn as_str(&self) -> (name: &'static str)
        ensures
            name@ == self.name(),
    {
        match self {
            FileSystem::Ext4 => "ext4",
            FileSystem::Xfs => "xfs",
            FileSystem::Btrfs => "btrfs",
        }
    }
}

/// One device to grow: where it is, what it is declared to hold, and where
/// that is mounted.
#[derive(Clone, Debug, PartialEq, Eq)]
pub struct Device {
    pub device: String,
    pub fs_type: FileSystem,
    pub mount_point: String,
}

/// What a [`Device`] holds, with each text as a sequence of characters.
pub ghost struct DeviceView {
    pub device: Seq<char>,
    pub fs_type: FileSystem,
    pub mount_point: Seq<char>,
}

impl View for Device {
    type V = DeviceView;

    open spec fn view(&self) -> DeviceView {
        DeviceView {
            device: self.device@,
            fs_type: self.fs_type,
            mount_point: self.mount_point@,
        }
    }
}

impl Device {
    /// A copy of the device.
    pub fn duplicate(&self) -> (copy: Device)
        ensures
            copy@ == self@,
    {
        Device {
            device: self.device.clone(),
            fs_type: self.fs_type,
            mount_point: self.mount_point.clone(),
        }
    }
}

/// The views of a list of devices.
pub open spec fn device_views(devices: Seq<Device>) -> Seq<DeviceView> {
    Seq::new(devices.len(), |i: int| devices[i]@)
}

/// Why the work on one device stopped: the error of the step that failed.
#[derive(Clone, Debug, PartialEq, Eq)]
pub enum PipelineError {
    Device(DeviceError),
    Resize(ResizeError),
    /// The unlocked volume of an encrypted container was not found.
    Mapper(String),
}

/// What a [`PipelineError`] holds, with each text as a sequence of characters.
pub ghost enum PipelineErrorView {
    Device(DeviceErrorView),
    Resize(ResizeErrorView),
    Mapper(Seq<char>),
}

impl PipelineErrorView {
    /// The text that describes the error to the operator.
    pub open spec fn message(self) -> Seq<char> {
        match self {
            PipelineErrorView::Device(e) => e.message(),
            PipelineErrorView::Resize(e) => e.message(),
            PipelineErrorView::Mapper(t) => t,
        }
    }
}

impl View for PipelineError {
    type V = PipelineErrorView;

    open spec fn view(&self) -> PipelineErrorView {
        match self {
            PipelineError::Device(e) => PipelineErrorView::Device(e@),
            PipelineError::Resize(e) => PipelineErrorView::Resize(e@),
            PipelineError::Mapper(t) => PipelineErrorView::Mapper(t@),
        }
    }
}

impl PipelineError {
    /// The text that describes the error to the operator.
    pub fn message(&self) -> (text: String)
        ensures
            text@ == self@.message(),
    {
        match self {
            PipelineError::Device(e) => e.message(),
            PipelineError::Resize(e) => e.message(),
            PipelineError::Mapper(t) => t.clone(),
        }
    }

    /// A copy of the error.
    pub fn duplicate(&self) -> (copy: PipelineError)
        ensures
            copy@ == self@,
    {
        match self {
            PipelineError::Device(e) => PipelineError::Device(e.duplicate()),
            PipelineError::Resize(e) => PipelineError::Resize(e.duplicate()),
            PipelineError::Mapper(t) => PipelineError::Mapper(t.clone()),
        }
    }
}

/// Where the work on one device stands.
#[derive(Clone, Debug, PartialEq, Eq)]
pub enum Phase {
    Analyzing(DeviceAnalysis),
    /// A dry run says what it would do to the partition.
    AnnouncingPartition { block: BlockDevice },
    /// A dry run says what it would do to the filesystem.
    AnnouncingFilesystem,
    Growing { block: BlockDevice, grow: GrowPartition },
    /// The device is probed for an encrypted container.
    ProbingLuks { block: BlockDevice },
    /// The unlocked volume of the container is looked for.
    FindingMapper { block: BlockDevice },
    ResizingLuks { mapper: String, luks: LuksResize },
    ResizingFs(FilesystemResize),
    Verifying(VerifyResize),
    Succeeded,
    Failed(PipelineError),
}

/// What a [`Phase`] holds, with each text as a sequence of characters.
pub ghost enum PhaseView {
    Analyzing(DeviceAnalysisView),
    AnnouncingPartition { block: BlockDeviceView },
    AnnouncingFilesystem,
    Growing { block: BlockDeviceView, grow: GrowPartitionView },
    ProbingLuks { block: BlockDeviceView },
    FindingMapper { block: BlockDeviceView },
    ResizingLuks { mapper: Seq<char>, luks: LuksResizeView },
    ResizingFs(FilesystemResizeView),
    Verifying(VerifyResizeView),
    Succeeded,
    Failed(PipelineErrorView),
}

impl View for Phase {
    type V = PhaseView;

    open spec fn view(&self) -> PhaseView {
        match self {
            Phase::Analyzing(analysis) => PhaseView::Analyzing(analysis@),
            Phase::AnnouncingPartition { block } => PhaseView::AnnouncingPartition {
                block: block@,
            },
            Phase::AnnouncingFilesystem => PhaseView::AnnouncingFilesystem,
            Phase::Growing { block, grow } => PhaseView::Growing { block: block@, grow: grow@ },
            Phase::ProbingLuks { block } => PhaseView::ProbingLuks { block: block@ },
            Phase::FindingMapper { block } => PhaseView::FindingMapper { block: block@ },
            Phase::ResizingLuks { mapper, luks } => PhaseView::ResizingLuks {
                mapper: mapper@,
                luks: luks@,
            },
            Phase::ResizingFs(resize) => PhaseView::ResizingFs(resize@),
            Phase::Verifying(verify) => PhaseView::Verifying(verify@),
            Phase::Succeeded => PhaseView::Succeeded,
            Phase::Failed(e) => PhaseView::Failed(e@),
        }
    }
}

/// The path of the disk with the kernel name `disk_name`.
pub open spec fn disk_path(disk_name: Seq<char>) -> Seq<char> {
    "/dev/"@ + disk_name
}

/// What a dry run says of the partition of `block`.
pub open spec fn partition_plan(block: BlockDeviceView) -> Seq<char> {
    match block.partition_number {
        Some(n) => "[DRY RUN] Would resize partition "@ + decimal(n as nat) + " on disk "@
            + disk_path(block.disk_name),
        None => "[DRY RUN] Would skip partition resize for whole disk "@ + disk_path(
            block.disk_name,
        ),
    }
}

/// What a dry run says of the filesystem of `device`.
pub open spec fn filesystem_plan(device: DeviceView) -> Seq<char> {
    "[DRY RUN] Would resize "@ + device.fs_type.name() + " filesystem at "@ + debug_form(
        device.mount_point,
    )
}

/// The work on one device: analysis, growth of the partition, growth of an
/// encrypted container where there is one, growth of the filesystem, and a
/// report of the new capacity. The first step that fails ends the work with
/// its error.
#[derive(Clone, Debug, PartialEq, Eq)]
pub struct Pipeline {
    device: Device,
    dry_run: bool,
    skip_verify: bool,
    phase: Phase,
}

/// What a [`Pipeline`] holds, with each text as a sequence of characters.
pub ghost struct PipelineView {
    pub device: DeviceView,
    /// Only say what would be done.
    pub dry_run: bool,
    /// Do not report the new capacity.
    pub skip_verify: bool,
    pub phase: PhaseView,
}

impl PipelineView {
    /// The machine before the device has been analysed.
    pub open spec fn start(device: DeviceView, dry_run: bool, skip_verify: bool) -> Self {
        PipelineView {
            device,
            dry_run,
            skip_verify,
            phase: PhaseView::Analyzing(DeviceAnalysisView::start(device.device)),
        }
    }

    /// The phase that follows a step which may still be running: `running`
    /// while it has no result, `then` after its success, failure with its
    /// error otherwise.
    pub open spec fn after_step(
        result: Option<Result<(), ResizeErrorView>>,
        running: PhaseView,
        then: PhaseView,
    ) -> PhaseView {
        match result {
            None => running,
            Some(Ok(())) => then,
            Some(Err(e)) => PhaseView::Failed(PipelineErrorView::Resize(e)),
        }
    }

    /// The phase that follows the analysis. A dry run goes on to say what it
    /// would do. Otherwise the partition is grown, on the disk that the
    /// analysis named; for a whole disk that is done at once.
    pub open spec fn analysed(self, block: BlockDeviceView) -> PhaseView {
        if self.dry_run {
            PhaseView::AnnouncingPartition { block }
        } else {
            let grow = GrowPartitionView::start(
                disk_path(block.disk_name),
                block.partition_number,
            );
            Self::after_step(
                grow.result(),
                PhaseView::Growing { block, grow },
                PhaseView::ProbingLuks { block },
            )
        }
    }

    /// The phase in which the filesystem is grown through `path`.
    pub open spec fn growing_filesystem(self, path: Seq<char>) -> PhaseView {
        PhaseView::ResizingFs(
            FilesystemResizeView::start(path, self.device.fs_type.name(), self.device.mount_point),
        )
    }

    /// The phase that follows the growth of the filesystem.
    pub open spec fn resized(self) -> PhaseView {
        if self.skip_verify {
            PhaseView::Succeeded
        } else {
            PhaseView::Verifying(VerifyResizeView::start(self.device.mount_point))
        }
    }

    /// The phase after `reply`. A reply that answers no request of the
    /// current step changes nothing.
    pub open spec fn next_phase(self, reply: ReplyView) -> PhaseView {
        match self.phase {
            PhaseView::Analyzing(analysis) => match analysis.next(reply).result() {
                None => PhaseView::Analyzing(analysis.next(reply)),
                Some(Ok(block)) => self.analysed(block),
                Some(Err(e)) => PhaseView::Failed(PipelineErrorView::Device(e)),
            },
            PhaseView::AnnouncingPartition { block } => match reply {
                ReplyView::Logged => PhaseView::AnnouncingFilesystem,
                _ => self.phase,
            },
            PhaseView::AnnouncingFilesystem => match reply {
                ReplyView::Logged => PhaseView::Succeeded,
                _ => self.phase,
            },
            PhaseView::Growing { block, grow } => Self::after_step(
                grow.next(reply).result(),
                PhaseView::Growing { block, grow: grow.next(reply) },
                PhaseView::ProbingLuks { block },
            ),
            PhaseView::ProbingLuks { block } => match reply {
                ReplyView::Tool(outcome) => if outcome.succeeded() {
                    PhaseView::FindingMapper { block }
                } else {
                    self.growing_filesystem(block.real_device)
                },
                _ => self.phase,
            },
            PhaseView::FindingMapper { block } => match reply {
                ReplyView::Tool(outcome) => match mapper_path(block.real_device, outcome) {
                    Ok(mapper) => PhaseView::ResizingLuks {
                        mapper,
                        luks: LuksResizeView::start(mapper),
                    },
                    Err(text) => PhaseView::Failed(PipelineErrorView::Mapper(text)),
                },
                _ => self.phase,
            },
            PhaseView::ResizingLuks { mapper, luks } => Self::after_step(
                luks.next(reply).result(),
                PhaseView::ResizingLuks { mapper, luks: luks.next(reply) },
                self.growing_filesystem(mapper),
            ),
            PhaseView::ResizingFs(resize) => Self::after_step(
                resize.next(reply).result(),
                PhaseView::ResizingFs(resize.next(reply)),
                self.resized(),
            ),
            PhaseView::Verifying(verify) => Self::after_step(
                verify.next(reply).result(),
                PhaseView::Verifying(verify.next(reply)),
                PhaseView::Succeeded,
            ),
            PhaseView::Succeeded | PhaseView::Failed(_) => self.phase,
        }
    }

    /// The machine after `reply`.
    pub open spec fn next(self, reply: ReplyView) -> Self {
        PipelineView { phase: self.next_phase(reply), ..self }
    }

    /// What the machine asks of the host: nothing once it has ended.
    pub open spec fn request(self) -> RequestView {
        match self.phase {
            PhaseView::Analyzing(analysis) => analysis.request(),
            PhaseView::AnnouncingPartition { block } => RequestView::Log {
                level: Level::Info,
                message: partition_plan(block),
            },
            PhaseView::AnnouncingFilesystem => RequestView::Log {
                level: Level::Info,
                message: filesystem_plan(self.device),
            },
            PhaseView::Growing { block, grow } => grow.request(),
            PhaseView::ProbingLuks { block } => RequestView::Run(probe_command(block.real_device)),
            PhaseView::FindingMapper { block } => RequestView::Run(
                mapper_command(block.real_device),
            ),
            PhaseView::ResizingLuks { mapper, luks } => luks.request(),
            PhaseView::ResizingFs(resize) => resize.request(),
            PhaseView::Verifying(verify) => verify.request(),
            PhaseView::Succeeded | PhaseView::Failed(_) => RequestView::Done,
        }
    }

    /// `None` while the work goes on, then success or the error of the step
    /// that failed.
    pub open spec fn result(self) -> Option<Result<(), PipelineErrorView>> {
        match self.phase {
            PhaseView::Succeeded => Some(Ok(())),
            PhaseView::Failed(e) => Some(Err(e)),
            _ => None,
        }
    }
}

impl View for Pipeline {
    type V = PipelineView;

    closed spec fn view(&self) -> PipelineView {
        PipelineView {
            device: self.device@,
            dry_run: self.dry_run,
            skip_verify: self.skip_verify,
            phase: self.phase@,
        }
    }
}

/// Starts the work on `device`. A dry run only says what would be done;
/// `skip_verify` leaves out the report of the new capacity.
pub fn process_device(device: &Device, dry_run: bool, skip_verify: bool) -> (m: Pipeline)
    ensures
        m@ == PipelineView::start(device@, dry_run, skip_verify),
{
    Pipeline {
        device: device.duplicate(),
        dry_run,
        skip_verify,
        phase: Phase::Analyzing(analyze_device(device.device.as_str())),
    }
}

fn after_step(result: Option<Result<(), ResizeError>>, running: Phase, then: Phase) -> (phase:
    Phase)
    ensures
        phase@ == PipelineView::after_step(view_outcome(result), running@, then@),
{
    match result {
        None => running,
        Some(Ok(())) => then,
        Some(Err(e)) => Phase::Failed(PipelineError::Resize(e)),
    }
}

impl Pipeline {
    fn analysed(&self, block: BlockDevice) -> (phase: Phase)
        ensures
            phase@ == self@.analysed(block@),
    {
        if self.dry_run {
            Phase::AnnouncingPartition { block }
        } else {
            let disk = joined("/dev/", block.disk_name.as_str());
            let grow = grow_partition(disk.as_str(), block.partition_number);
            let result = grow.result();
            let next = block.duplicate();
            after_step(result, Phase::Growing { block, grow }, Phase::ProbingLuks { block: next })
        }
    }

    fn growing_filesystem(&self, path: &str) -> (phase: Phase)
        ensures
            phase@ == self@.growing_filesystem(path@),
    {
        Phase::ResizingFs(
            resize_filesystem(path, self.device.fs_type.as_str(), self.device.mount_point.as_str()),
        )
    }

    fn resized(&self) -> (phase: Phase)
        ensures
            phase@ == self@.resized(),
    {
        if self.skip_verify {
            Phase::Succeeded
        } else {
            Phase::Verifying(verify_resize(self.device.mount_point.as_str()))
        }
    }

    /// The path of the device that the work is on, as it was given.
    pub fn device_path(&self) -> (path: String)
        ensures
            path@ == self@.device.device,
    {
        self.device.device.clone()
    }

    /// What the machine needs next.
    pub fn request(&self) -> (r: Request)
        ensures
            r@ == self@.request(),
    {
        match &self.phase {
            Phase::Analyzing(analysis) => analysis.request(),
            Phase::AnnouncingPartition { block } => {
                let disk = joined("/dev/", block.disk_name.as_str());
                let message = match block.partition_number {
                    Some(n) => {
                        let number = string_of(&decimal_of(n as u64));
                        joined("[DRY RUN] Would resize partition ", number.as_str()).concat(
                            " on disk ",
                        ).concat(disk.as_str())
                    },
                    None => joined(
                        "[DRY RUN] Would skip partition resize for whole disk ",
                        disk.as_str(),
                    ),
                };
                Request::Log { level: Level::Info, message }
            },
            Phase::AnnouncingFilesystem => {
                let at = quoted(self.device.mount_point.as_str());
                let message = joined("[DRY RUN] Would resize ", self.device.fs_type.as_str())
                    .concat(" filesystem at ").concat(at.as_str());
                Request::Log { level: Level::Info, message }
            },
            Phase::Growing { grow, .. } => grow.request(),
            Phase::ProbingLuks { block } => Request::Run(luks_probe(block.real_device.as_str())),
            Phase::FindingMapper { block } => Request::Run(
                mapper_query(block.real_device.as_str()),
            ),
            Phase::ResizingLuks { luks, .. } => luks.request(),
            Phase::ResizingFs(resize) => resize.request(),
            Phase::Verifying(verify) => verify.request(),
            Phase::Succeeded | Phase::Failed(_) => Request::Done,
        }
    }

    /// The machine after the host's reply.
    pub fn advance(self, reply: Reply) -> (m: Pipeline)
        ensures
            m@ == self@.next(reply@),
    {
        let ghost before = self@;
        let Pipeline { device, dry_run, skip_verify, phase } = self;
        let shell = Pipeline { device, dry_run, skip_verify, phase: Phase::Succeeded };
        assert(shell@.device == before.device && shell@.dry_run == before.dry_run
            && shell@.skip_verify == before.skip_verify);
        let phase = match phase {
            Phase::Analyzing(analysis) => {
                let analysis = analysis.advance(reply);
                match analysis.result() {
                    None => Phase::Analyzing(analysis),
                    Some(Ok(block)) => shell.analysed(block),
                    Some(Err(e)) => Phase::Failed(PipelineError::Device(e)),
                }
            },
            Phase::AnnouncingPartition { block } => match reply {
                Reply::Logged => Phase::AnnouncingFilesystem,
                _ => Phase::AnnouncingPartition { block },
            },
            Phase::AnnouncingFilesystem => match reply {
                Reply::Logged => Phase::Succeeded,
                _ => Phase::AnnouncingFilesystem,
            },
            Phase::Growing { block, grow } => {
                let grow = grow.advance(reply);
                let result = grow.result();
                let next = block.duplicate();
                after_step(
                    result,
                    Phase::Growing { block, grow },
                    Phase::ProbingLuks { block: next },
                )
            },
            Phase::ProbingLuks { block } => match reply {
                Reply::Tool(outcome) => if is_luks(&outcome) {
                    Phase::FindingMapper { block }
                } else {
                    shell.growing_filesystem(block.real_device.as_str())
                },
                _ => Phase::ProbingLuks { block },
            },
            Phase::FindingMapper { block } => match reply {
                Reply::Tool(outcome) => match find_luks_mapper(
                    block.real_device.as_str(),
                    &outcome,
                ) {
                    Ok(mapper) => {
                        let luks = resize_luks(mapper.as_str());
                        Phase::ResizingLuks { mapper, luks }
                    },
                    Err(text) => Phase::Failed(PipelineError::Mapper(text)),
                },
                _ => Phase::FindingMapper { block },
            },
            Phase::ResizingLuks { mapper, luks } => {
                let luks = luks.advance(reply);
                let result = luks.result();
                let then = shell.growing_filesystem(mapper.as_str());
                after_step(result, Phase::ResizingLuks { mapper, luks }, then)
            },
            Phase::ResizingFs(resize) => {
                let resize = resize.advance(reply);
                let result = resize.result();
                after_step(result, Phase::ResizingFs(resize), shell.resized())
            },
            Phase::Verifying(verify) => {
                let verify = verify.advance(reply);
                let result = verify.result();
                after_step(result, Phase::Verifying(verify), Phase::Succeeded)
            },
            Phase::Succeeded => Phase::Succeeded,
            Phase::Failed(e) => Phase::Failed(e),
        };
        Pipeline { phase, ..shell }
    }

    /// `None` while the work goes on, then success or the error of the step
    /// that failed.
    pub fn result(&self) -> (r: Option<Result<(), PipelineError>>)
        ensures
            view_outcome(r) == self@.result(),
    {
        match &self.phase {
            Phase::Succeeded => Some(Ok(())),
            Phase::Failed(e) => Some(Err(e.duplicate())),
            _ => None,
        }
    }
}

/// A whole disk has no partition to grow: after its analysis no grow tool is
/// asked for, and the work goes on with the probe for an encrypted
/// container.
pub proof fn lemma_whole_disk_skips_growth(p: PipelineView, block: BlockDeviceView)
    requires
        !p.dry_run,
        block.partition_number is None,
    ensures
        p.analysed(block) == (PhaseView::ProbingLuks { block }),
{
}

/// Status 2 of the first grow tool counts as growth: the work goes on with
/// the probe for an encrypted container.
pub proof fn lemma_status_two_goes_on(
    p: PipelineView,
    block: BlockDeviceView,
    disk: Seq<char>,
    partition: u32,
    stdout: Seq<char>,
    stderr: Seq<char>,
)
    requires
        p.phase == (PhaseView::Growing {
            block,
            grow: GrowPartitionView::start(disk, Some(partition)),
        }),
    ensures
        p.next(
            ReplyView::Tool(ToolOutcomeView::Exited { code: Some(2i32), stdout, stderr }),
        ).phase == (PhaseView::ProbingLuks { block }),
{
}

/// On a device that holds no encrypted container, the filesystem is grown
/// through the device itself.
pub proof fn lemma_plain_device_grows_directly(
    p: PipelineView,
    block: BlockDeviceView,
    outcome: ToolOutcomeView,
)
    requires
        p.phase == (PhaseView::ProbingLuks { block }),
        !outcome.succeeded(),
    ensures
        p.next(ReplyView::Tool(outcome)).phase == PhaseView::ResizingFs(
            FilesystemResizeView::start(
                block.real_device,
                p.device.fs_type.name(),
                p.device.mount_point,
            ),
        ),
{
}

/// On a device that holds an encrypted container, no filesystem is grown
/// before the container has been grown with success, and then it is grown
/// through the unlocked volume, not through the device.
pub proof fn lemma_encrypted_device_grows_through_mapper(
    p: PipelineView,
    mapper: Seq<char>,
    luks: LuksResizeView,
    reply: ReplyView,
)
    requires
        p.phase == (PhaseView::ResizingLuks { mapper, luks }),
    ensures
        p.next(reply).phase is ResizingFs <==> luks.next(reply).result() == Some(
            Ok::<(), ResizeErrorView>(()),
        ),
        p.next(reply).phase is ResizingFs ==> p.next(reply).phase == PhaseView::ResizingFs(
            FilesystemResizeView::start(mapper, p.device.fs_type.name(), p.device.mount_point),
        ),
{
}

/// The first step that fails ends the work: a machine that has failed asks
/// for nothing more and stays as it is.
pub proof fn lemma_failure_is_final(p: PipelineView, reply: ReplyView)
    requires
        p.phase is Failed,
    ensures
        p.request() == RequestView::Done,
        p.next(reply) == p,
{
}

impl PipelineView {
    /// The step that the work is at has not ended yet: a step that ends
    /// hands over to the next one at once.
    pub open spec fn wf(self) -> bool {
        match self.phase {
            PhaseView::Analyzing(analysis) => analysis.result() is None,
            PhaseView::Growing { block, grow } => grow.result() is None,
            PhaseView::ResizingLuks { mapper, luks } => luks.result() is None,
            PhaseView::ResizingFs(resize) => resize.wf() && resize.result() is None,
            PhaseView::Verifying(verify) => verify.result() is None,
            _ => true,
        }
    }
}

/// The work on a device starts well-formed and stays so; and while it is
/// well-formed, it asks for something exactly as long as it has no result.
pub proof fn lemma_pipeline_asks_until_finished(
    device: DeviceView,
    dry_run: bool,
    skip_verify: bool,
    p: PipelineView,
    reply: ReplyView,
)
    ensures
        PipelineView::start(device, dry_run, skip_verify).wf(),
        p.wf() ==> p.next(reply).wf(),
        p.wf() ==> (p.request() is Done <==> p.result() is Some),
{
    if p.wf() {
        match p.phase {
            PhaseView::ResizingFs(resize) => {
                crate::filesystem::lemma_filesystem_resize_asks_until_finished(
                    Seq::empty(),
                    Seq::empty(),
                    Seq::empty(),
                    resize,
                    reply,
                );
            },
            PhaseView::ProbingLuks { block } => {
                crate::filesystem::lemma_filesystem_resize_asks_until_finished(
                    block.real_device,
                    p.device.fs_type.name(),
                    p.device.mount_point,
                    FilesystemResizeView::start(
                        block.real_device,
                        p.device.fs_type.name(),
                        p.device.mount_point,
                    ),
                    reply,
                );
            },
            PhaseView::ResizingLuks { mapper, luks } => {
                crate::filesystem::lemma_filesystem_resize_asks_until_finished(
                    mapper,
                    p.device.fs_type.name(),
                    p.device.mount_point,
                    FilesystemResizeView::start(
                        mapper,
                        p.device.fs_type.name(),
                        p.device.mount_point,
                    ),
                    reply,
                );
            },
            _ => {},
        }
    }
}

/// Every type that a device can be declared to hold is one that can be
/// grown.
pub proof fn lemma_declared_types_can_be_grown(fs_type: FileSystem)
    ensures
        crate::filesystem::kind_of(fs_type.name()) is Some,
{
    crate::filesystem::lemma_family_names();
}

impl PhaseView {
    /// The place of a phase in the order of the work: analysis, growth of
    /// the partition, probe for a container, search for its unlocked volume,
    /// growth of the container, growth of the filesystem, report, end. The
    /// two phases of a dry run stand where the steps stand of which they
    /// speak.
    pub open spec fn rank(self) -> nat {
        match self {
            PhaseView::Analyzing(_) => 0,
            PhaseView::AnnouncingPartition { .. } => 1,
            PhaseView::Growing { .. } => 1,
            PhaseView::ProbingLuks { .. } => 2,
            PhaseView::FindingMapper { .. } => 3,
            PhaseView::ResizingLuks { .. } => 4,
            PhaseView::AnnouncingFilesystem => 5,
            PhaseView::ResizingFs(_) => 5,
            PhaseView::Verifying(_) => 6,
            PhaseView::Succeeded | PhaseView::Failed(_) => 7,
        }
    }
}

/// The work never goes back to an earlier step.
pub proof fn lemma_steps_come_in_order(p: PipelineView, reply: ReplyView)
    ensures
        p.next(reply).phase.rank() >= p.phase.rank(),
{
}

/// A grow tool is asked for only where the device is a partition, and then
/// for that partition of the disk that the analysis named.
pub proof fn lemma_only_partitions_are_grown(p: PipelineView, block: BlockDeviceView)
    ensures
        p.analysed(block) is Growing ==> block.partition_number is Some && !p.dry_run,
        p.analysed(block) matches PhaseView::Growing { grow, .. } ==> grow
            == GrowPartitionView::start(disk_path(block.disk_name), block.partition_number),
{
}

/// A report of the new capacity follows the growth of the filesystem unless
/// it was said to be skipped, and nothing else leads to it.
pub proof fn lemma_report_follows_growth(p: PipelineView, reply: ReplyView)
    requires
        !(p.phase is Verifying),
        p.next(reply).phase is Verifying,
    ensures
        !p.skip_verify,
        p.phase matches PhaseView::ResizingFs(resize) && resize.next(reply).result() == Some(
            Ok::<(), ResizeErrorView>(()),
        ),
{
}

} // verus!
