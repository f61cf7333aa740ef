//! The report of a filesystem's capacity after its growth.

use crate::protocol::{
    view_outcome, FsStats, Invocation, InvocationView, Level, Reply, ReplyView, Request,
    RequestView, ToolOutcome, ToolOutcomeView,
};
use crate::report::{
    capacity_report, figures_usable, get_device_for_mount, get_filesystem_info_native, mount_source,
    usable,
};
use crate::resize::{ResizeError, ResizeErrorView};
use crate::text::{
    chars_of, contains, has_substring, join_lines, joined, joined_lines, lines, lines_of, slice,
    string_of, views,
};
use vstd::prelude::*;

verus! {

/// Those of `lines` in which `needle` occurs, in their order.
pub open spec fn mentioning(lines: Seq<Seq<char>>, needle: Seq<char>) -> Seq<Seq<char>>
    decreases lines.len(),
{
    if lines.len() == 0 {
        Seq::empty()
    } else if contains(lines.last(), needle) {
        mentioning(lines.drop_last(), needle).push(lines.last())
    } else {
        mentioning(lines.drop_last(), needle)
    }
}

/// The lines of a device listing that mention `mount_point`, one below the
/// other.
pub open spec fn listing_for(listing: Seq<char>, mount_point: Seq<char>) -> Seq<char> {
    join_lines(mentioning(lines(listing), mount_point))
}

/// Picks the lines of a device listing that mention `mount_point`.
pub fn filter_listing(listing: &str, mount_point: &str) -> (out: String)
    ensures
        out@ == listing_for(listing@, mount_point@),
{
    let needle = chars_of(mount_point);
    let all = lines_of(&chars_of(listing));
    let mut kept: Vec<Vec<char>> = Vec::new();
    let mut i: usize = 0;
    while i < all.len()
        invariant
            i <= all.len(),
            needle@ == mount_point@,
            views(kept@) == mentioning(views(all@).take(i as int), mount_point@),
        decreases all.len() - i,
    {
        proof {
            assert(views(all@).take(i + 1).drop_last() =~= views(all@).take(i as int));
        }
        if has_substring(&all[i], &needle) {
            let line = slice(&all[i], 0, all[i].len());
            assert(line@ =~= all@[i as int]@);
            kept.push(line);
        }
        i += 1;
    }
    assert(views(all@).take(i as int) =~= views(all@));
    string_of(&joined_lines(&kept))
}

/// Where the reporting of a filesystem's capacity stands.
#[derive(Clone, Copy, Debug, PartialEq, Eq, Structural)]
pub enum VerifyStage {
    /// The operating system is asked for the capacity figures.
    Stat,
    /// The figures are there; the mount table is read for the device's name.
    Mounts,
    /// The disk-free tool runs.
    Df,
    /// The device listing runs.
    Listing,
    /// The report is handed to the operator.
    Reporting,
    Succeeded,
    Failed,
}

/// Reports the capacity of a mounted filesystem to the operator, from the
/// first of three sources that gives it: the operating system's own figures,
/// the disk-free tool, the device listing.
#[derive(Clone, Debug, PartialEq, Eq)]
pub struct VerifyResize {
    mount_point: String,
    stage: VerifyStage,
    stats: FsStats,
    report: String,
}

/// What a [`VerifyResize`] holds, with each text as a sequence of characters.
pub ghost struct VerifyResizeView {
    pub mount_point: Seq<char>,
    pub stage: VerifyStage,
    /// The capacity figures, once the operating system has given them.
    pub stats: FsStats,
    /// The report, once a source has given it.
    pub report: Seq<char>,
}

impl VerifyResizeView {
    /// The machine before any source has been asked.
    pub open spec fn start(mount_point: Seq<char>) -> Self {
        VerifyResizeView {
            mount_point,
            stage: VerifyStage::Stat,
            stats: FsStats { fragment_size: 0, blocks: 0, blocks_free: 0, blocks_available: 0 },
            report: Seq::empty(),
        }
    }

    /// What the machine asks of the host: nothing once it has ended.
    pub open spec fn request(self) -> RequestView {
        match self.stage {
            VerifyStage::Stat => RequestView::Stat { mount_point: self.mount_point },
            VerifyStage::Mounts => RequestView::ReadMounts,
            VerifyStage::Df => RequestView::Run(
                InvocationView::new("df"@).arg("-h"@).arg(self.mount_point),
            ),
            VerifyStage::Listing => RequestView::Run(
                InvocationView::new("lsblk"@).arg("-fo"@).arg("NAME,SIZE,MOUNTPOINT"@).arg(
                    "--path"@,
                ),
            ),
            VerifyStage::Reporting => RequestView::Log {
                level: Level::Info,
                message: self.report,
            },
            VerifyStage::Succeeded | VerifyStage::Failed => RequestView::Done,
        }
    }

    /// The name under which the report lists the filesystem: the device that
    /// the mount table gives for the mount point, and the mount point itself
    /// where the table gives none or could not be read.
    pub open spec fn reported_device(self, mounts: Option<Seq<char>>) -> Seq<char> {
        match mounts {
            Some(table) => match mount_source(table, self.mount_point) {
                Some(device) => device,
                None => self.mount_point,
            },
            None => self.mount_point,
        }
    }

    /// The machine about to hand `report` to the operator.
    pub open spec fn reporting(self, report: Seq<char>) -> Self {
        VerifyResizeView { stage: VerifyStage::Reporting, report, ..self }
    }

    /// The machine after `reply`. A source that fails only hands over to the
    /// next one; the last one's failure is the machine's. A reply that
    /// answers no request of the machine changes nothing.
    pub open spec fn next(self, reply: ReplyView) -> Self {
        match (self.stage, reply) {
            (VerifyStage::Stat, ReplyView::Stats(Some(stats))) => if usable(stats) {
                VerifyResizeView { stage: VerifyStage::Mounts, stats, ..self }
            } else {
                VerifyResizeView { stage: VerifyStage::Df, ..self }
            },
            (VerifyStage::Stat, ReplyView::Stats(None)) => VerifyResizeView {
                stage: VerifyStage::Df,
                ..self
            },
            (VerifyStage::Mounts, ReplyView::Mounts(mounts)) => match capacity_report(
                self.stats,
                self.reported_device(mounts),
                self.mount_point,
            ) {
                Some(report) => self.reporting("Current size:\n"@ + report),
                None => VerifyResizeView { stage: VerifyStage::Df, ..self },
            },
            (VerifyStage::Df, ReplyView::Tool(outcome)) => match outcome {
                ToolOutcomeView::Exited { code, stdout, stderr } => if code == Some(0i32) {
                    self.reporting("Current size:\n"@ + stdout)
                } else {
                    VerifyResizeView { stage: VerifyStage::Listing, ..self }
                },
                ToolOutcomeView::NotLaunched { .. } => VerifyResizeView {
                    stage: VerifyStage::Listing,
                    ..self
                },
            },
            (VerifyStage::Listing, ReplyView::Tool(outcome)) => match outcome {
                ToolOutcomeView::Exited { code, stdout, stderr } => if code == Some(0i32) {
                    self.reporting(
                        "Current size from lsblk:\n"@ + listing_for(stdout, self.mount_point),
                    )
                } else {
                    VerifyResizeView { stage: VerifyStage::Failed, ..self }
                },
                ToolOutcomeView::NotLaunched { .. } => VerifyResizeView {
                    stage: VerifyStage::Failed,
                    ..self
                },
            },
            (VerifyStage::Reporting, ReplyView::Logged) => VerifyResizeView {
                stage: VerifyStage::Succeeded,
                ..self
            },
            _ => self,
        }
    }

    /// `None` while the machine waits for the host, then success or the
    /// error.
    pub open spec fn result(self) -> Option<Result<(), ResizeErrorView>> {
        match self.stage {
            VerifyStage::Succeeded => Some(Ok(())),
            VerifyStage::Failed => Some(
                Err(ResizeErrorView::CommandFailed("Failed to get filesystem size information"@)),
            ),
            _ => None,
        }
    }
}

impl View for VerifyResize {
    type V = VerifyResizeView;

    closed spec fn view(&self) -> VerifyResizeView {
        VerifyResizeView {
            mount_point: self.mount_point@,
            stage: self.stage,
            stats: self.stats,
            report: self.report@,
        }
    }
}

/// Starts reporting the capacity of the filesystem mounted at `mount_point`.
pub fn verify_resize(mount_point: &str) -> (m: VerifyResize)
    ensures
        m@ == VerifyResizeView::start(mount_point@),
{
    VerifyResize {
        mount_point: mount_point.to_owned(),
        stage: VerifyStage::Stat,
        stats: FsStats { fragment_size: 0, blocks: 0, blocks_free: 0, blocks_available: 0 },
        report: String::new(),
    }
}

impl VerifyResize {
    /// What the machine needs next.
    pub fn request(&self) -> (r: Request)
        ensures
            r@ == self@.request(),
    {
        match self.stage {
            VerifyStage::Stat => Request::Stat { mount_point: self.mount_point.clone() },
            VerifyStage::Mounts => Request::ReadMounts,
            VerifyStage::Df => Request::Run(
                Invocation::new("df").arg("-h").arg(self.mount_point.as_str()),
            ),
            VerifyStage::Listing => Request::Run(
                Invocation::new("lsblk").arg("-fo").arg("NAME,SIZE,MOUNTPOINT").arg("--path"),
            ),
            VerifyStage::Reporting => Request::Log {
                level: Level::Info,
                message: self.report.clone(),
            },
            VerifyStage::Succeeded | VerifyStage::Failed => Request::Done,
        }
    }

    fn reported_device(&self, mounts: &Option<String>) -> (device: String)
        ensures
            device@ == self@.reported_device(mounts.deep_view()),
    {
        match mounts {
            Some(table) => match get_device_for_mount(table.as_str(), self.mount_point.as_str()) {
                Some(device) => device,
                None => self.mount_point.clone(),
            },
            None => self.mount_point.clone(),
        }
    }

    fn reporting(self, report: String) -> (m: VerifyResize)
        ensures
            m@ == self@.reporting(report@),
    {
        VerifyResize { stage: VerifyStage::Reporting, report, ..self }
    }

    /// The machine after the host's reply.
    pub fn advance(self, reply: Reply) -> (m: VerifyResize)
        ensures
            m@ == self@.next(reply@),
    {
        match (self.stage, reply) {
            (VerifyStage::Stat, Reply::Stats(Some(stats))) => if figures_usable(&stats) {
                VerifyResize { stage: VerifyStage::Mounts, stats, ..self }
            } else {
                VerifyResize { stage: VerifyStage::Df, ..self }
            },
            (VerifyStage::Stat, Reply::Stats(None)) => VerifyResize {
                stage: VerifyStage::Df,
                ..self
            },
            (VerifyStage::Mounts, Reply::Mounts(mounts)) => {
                let device = self.reported_device(&mounts);
                match get_filesystem_info_native(
                    &self.stats,
                    device.as_str(),
                    self.mount_point.as_str(),
                ) {
                    Some(report) => {
                        let text = joined("Current size:\n", report.as_str());
                        self.reporting(text)
                    },
                    None => VerifyResize { stage: VerifyStage::Df, ..self },
                }
            },
            (VerifyStage::Df, Reply::Tool(outcome)) => {
                let ok = outcome.succeeded();
                match outcome {
                    ToolOutcome::Exited { stdout, .. } => if ok {
                        let text = joined("Current size:\n", stdout.as_str());
                        self.reporting(text)
                    } else {
                        VerifyResize { stage: VerifyStage::Listing, ..self }
                    },
                    ToolOutcome::NotLaunched { .. } => VerifyResize {
                        stage: VerifyStage::Listing,
                        ..self
                    },
                }
            },
            (VerifyStage::Listing, Reply::Tool(outcome)) => {
                let ok = outcome.succeeded();
                match outcome {
                    ToolOutcome::Exited { stdout, .. } => if ok {
                        let found = filter_listing(stdout.as_str(), self.mount_point.as_str());
                        let text = joined("Current size from lsblk:\n", found.as_str());
                        self.reporting(text)
                    } else {
                        VerifyResize { stage: VerifyStage::Failed, ..self }
                    },
                    ToolOutcome::NotLaunched { .. } => VerifyResize {
                        stage: VerifyStage::Failed,
                        ..self
                    },
                }
            },
            (VerifyStage::Reporting, Reply::Logged) => VerifyResize {
                stage: VerifyStage::Succeeded,
                ..self
            },
            _ => self,
        }
    }

    /// `None` while the machine waits for the host, then success or the
    /// error.
    pub fn result(&self) -> (r: Option<Result<(), ResizeError>>)
        ensures
            view_outcome(r) == self@.result(),
    {
        match self.stage {
            VerifyStage::Succeeded => Some(Ok(())),
            VerifyStage::Failed => Some(
                Err(
                    ResizeError::CommandFailed(
                        "Failed to get filesystem size information".to_owned(),
                    ),
                ),
            ),
            _ => None,
        }
    }
}

/// The report asks for something exactly as long as it has no result.
pub proof fn lemma_verification_asks_until_finished(m: VerifyResizeView)
    ensures
        m.request() is Done <==> m.result() is Some,
{
}

/// The report fails in one way only: the operating system gave no usable
/// figures, the disk-free tool failed, and the device listing failed too.
pub proof fn lemma_verification_fails_only_after_all_sources(m: VerifyResizeView, reply: ReplyView)
    requires
        !(m.stage is Failed),
        m.next(reply).stage is Failed,
    ensures
        m.stage is Listing,
        reply is Tool,
        !reply->Tool_0.succeeded(),
{
}

} // verus!
