//! Analysis of a block device: its canonical path, the disk that holds it and
//! its index among the partitions of that disk.

use crate::number::{decimal, lemma_decimal_reads_back, parse_number, parse_number_in};
use crate::protocol::{
    view_outcome, view_result, Invocation, InvocationView, Reply, ReplyView, Request, RequestView,
    ToolOutcome, ToolOutcomeView,
};
use crate::text::{
    chars_of, debug_form, is_space, joined, lemma_split_joined, lemma_split_whole,
    lemma_strip_enclosed, lemma_trim_keeps, quoted, same_chars, shaved, split, split_at, string_of,
    strip, trim, trimmed, view_of, views, CharClass,
};
use vstd::prelude::*;

verus! {

/// A block device as the topology query describes it.
#[derive(Clone, Debug, PartialEq, Eq)]
pub struct BlockDevice {
    /// The canonical absolute path of the device.
    pub real_device: String,
    /// The kernel name of the disk that holds the device; never empty.
    pub disk_name: String,
    /// The index of the device among the partitions of that disk; `None` for
    /// a device that is a whole disk.
    pub partition_number: Option<u32>,
}

/// What a [`BlockDevice`] holds, with each text as a sequence of characters.
pub ghost struct BlockDeviceView {
    pub real_device: Seq<char>,
    pub disk_name: Seq<char>,
    pub partition_number: Option<u32>,
}

impl View for BlockDevice {
    type V = BlockDeviceView;

    open spec fn view(&self) -> BlockDeviceView {
        BlockDeviceView {
            real_device: self.real_device@,
            disk_name: self.disk_name@,
            partition_number: self.partition_number,
        }
    }
}

/// Why a device could not be analysed, or the host is not fit for the work.
#[derive(Clone, Debug, PartialEq, Eq)]
pub enum DeviceError {
    NotFound(String),
    MissingTool(String),
    DeviceInfo(String),
    Io(String),
}

/// What a [`DeviceError`] holds, with each text as a sequence of characters.
pub ghost enum DeviceErrorView {
    NotFound(Seq<char>),
    MissingTool(Seq<char>),
    DeviceInfo(Seq<char>),
    Io(Seq<char>),
}

impl DeviceErrorView {
    /// The text that describes the error to the operator.
    pub open spec fn message(self) -> Seq<char> {
        match self {
            DeviceErrorView::NotFound(t) => "Device not found: "@ + t,
            DeviceErrorView::MissingTool(t) => "Required tool not found: "@ + t,
            DeviceErrorView::DeviceInfo(t) => "Failed to get device info: "@ + t,
            DeviceErrorView::Io(t) => "IO error: "@ + t,
        }
    }
}

impl View for DeviceError {
    type V = DeviceErrorView;

    open spec fn view(&self) -> DeviceErrorView {
        match self {
            DeviceError::NotFound(t) => DeviceErrorView::NotFound(t@),
            DeviceError::MissingTool(t) => DeviceErrorView::MissingTool(t@),
            DeviceError::DeviceInfo(t) => DeviceErrorView::DeviceInfo(t@),
            DeviceError::Io(t) => DeviceErrorView::Io(t@),
        }
    }
}

impl DeviceError {
    /// The text that describes the error to the operator.
    pub fn message(&self) -> (text: String)
        ensures
            text@ == self@.message(),
    {
        match self {
            DeviceError::NotFound(t) => joined("Device not found: ", t.as_str()),
            DeviceError::MissingTool(t) => joined("Required tool not found: ", t.as_str()),
            DeviceError::DeviceInfo(t) => joined("Failed to get device info: ", t.as_str()),
            DeviceError::Io(t) => joined("IO error: ", t.as_str()),
        }
    }
}

/// The key of a `KEY=value` token: what stands before its first `=`.
pub open spec fn token_key(token: Seq<char>) -> Seq<char> {
    split(token, CharClass::Only('='))[0]
}

/// The value of a `KEY="value"` token: what stands between its first and its
/// second `=`, without the double quotes around it. `None` for a token
/// without `=`.
pub open spec fn token_value(token: Seq<char>) -> Option<Seq<char>> {
    let parts = split(token, CharClass::Only('='));
    if parts.len() >= 2 {
        Some(strip(parts[1], '"'))
    } else {
        None
    }
}

/// Whether `token` gives `key` a value that counts: any value where
/// `keep_empty`, else one that is not empty.
pub open spec fn assigns(token: Seq<char>, key: Seq<char>, keep_empty: bool) -> bool {
    &&& token_key(token) == key
    &&& token_value(token) matches Some(value)
    &&& (keep_empty || value.len() > 0)
}

/// The value that `tokens` give to `key`: that of the last token that
/// assigns one.
pub open spec fn assigned(tokens: Seq<Seq<char>>, key: Seq<char>, keep_empty: bool) -> Option<
    Seq<char>,
>
    decreases tokens.len(),
{
    if tokens.len() == 0 {
        None
    } else if assigns(tokens.last(), key, keep_empty) {
        token_value(tokens.last())
    } else {
        assigned(tokens.drop_last(), key, keep_empty)
    }
}

/// Whether `token` gives the partition index a value that is not empty and
/// is no number of 32 bits.
pub open spec fn bad_partition(token: Seq<char>) -> bool {
    &&& assigns(token, "PARTN"@, false)
    &&& parse_number(token_value(token)->0, u32::MAX as nat) is None
}

/// The tokens of a topology report: the pieces between the single spaces of
/// the report without the whitespace around it.
pub open spec fn topology_tokens(report: Seq<char>) -> Seq<Seq<char>> {
    split(trim(report), CharClass::Only(' '))
}

/// What a topology report says of one device.
#[derive(Clone, Debug, PartialEq, Eq)]
pub struct Topology {
    /// The kernel name of the parent disk, where the report names one.
    pub parent: Option<String>,
    /// The kernel name of the device itself.
    pub name: Option<String>,
    /// The index of the device among the partitions of its parent.
    pub partition_number: Option<u32>,
}

/// What a [`Topology`] holds, with each text as a sequence of characters.
pub ghost struct TopologyView {
    pub parent: Option<Seq<char>>,
    pub name: Option<Seq<char>>,
    pub partition_number: Option<u32>,
}

impl View for Topology {
    type V = TopologyView;

    open spec fn view(&self) -> TopologyView {
        TopologyView {
            parent: self.parent.deep_view(),
            name: self.name.deep_view(),
            partition_number: self.partition_number,
        }
    }
}

/// The fields of a topology report, which holds tokens `KEY="value"`.
/// `PKNAME` names the parent disk, `NAME` the device itself and `PARTN`
/// gives its partition index; an empty `PKNAME` or `PARTN` counts as absent.
/// `None` where a partition index is no number of 32 bits.
pub open spec fn topology_fields(report: Seq<char>) -> Option<TopologyView> {
    let tokens = topology_tokens(report);
    if exists|i: int| 0 <= i < tokens.len() && bad_partition(#[trigger] tokens[i]) {
        None
    } else {
        Some(
            TopologyView {
                parent: assigned(tokens, "PKNAME"@, false),
                name: assigned(tokens, "NAME"@, true),
                partition_number: match assigned(tokens, "PARTN"@, false) {
                    Some(index) => match parse_number(index, u32::MAX as nat) {
                        Some(n) => Some(n as u32),
                        None => None,
                    },
                    None => None,
                },
            },
        )
    }
}

/// What a topology report says of the device at `real_device`. A device
/// without a parent is its own disk. The errors, in the order in which they
/// are looked for: a report that is empty, a partition index that is no
/// number, no name for the disk.
pub open spec fn topology(real_device: Seq<char>, report: Seq<char>) -> Result<
    BlockDeviceView,
    DeviceErrorView,
> {
    if trim(report).len() == 0 {
        Err(
            DeviceErrorView::DeviceInfo(
                "lsblk returned no output for device "@ + debug_form(real_device),
            ),
        )
    } else {
        match topology_fields(report) {
            None => Err(DeviceErrorView::DeviceInfo("Invalid partition number"@)),
            Some(fields) => {
                let disk_name = match fields.parent {
                    Some(parent) => parent,
                    None => match fields.name {
                        Some(name) => name,
                        None => Seq::empty(),
                    },
                };
                if disk_name.len() == 0 {
                    Err(DeviceErrorView::DeviceInfo("Could not determine device name"@))
                } else {
                    Ok(
                        BlockDeviceView {
                            real_device,
                            disk_name,
                            partition_number: fields.partition_number,
                        },
                    )
                }
            },
        }
    }
}

proof fn lemma_keys_differ()
    ensures
        "PKNAME"@ != "NAME"@,
        "PKNAME"@ != "PARTN"@,
        "NAME"@ != "PARTN"@,
{
    reveal_strlit("PKNAME");
    reveal_strlit("NAME");
    reveal_strlit("PARTN");
    assert("NAME"@.len() == 4);
    assert("PARTN"@.len() == 5);
}

/// The key and the value of a token.
pub fn read_token(token: &Vec<char>) -> (r: (Vec<char>, Option<Vec<char>>))
    ensures
        r.0@ == token_key(token@),
        view_of(r.1) == token_value(token@),
{
    let mut parts = split_at(token, CharClass::Only('='));
    let value = if parts.len() >= 2 {
        Some(shaved(&parts[1], CharClass::Only('"')))
    } else {
        None
    };
    let key = parts.swap_remove(0);
    (key, value)
}

/// The string that holds the characters of `v`, where there is a `v`.
pub fn text_of(v: &Option<Vec<char>>) -> (s: Option<String>)
    ensures
        s.deep_view() == view_of(*v),
{
    match v {
        Some(v) => Some(string_of(v)),
        None => None,
    }
}

/// Reads the fields of a topology report.
pub fn read_topology(report: &str) -> (r: Option<Topology>)
    ensures
        match r {
            Some(fields) => topology_fields(report@) == Some(fields@),
            None => topology_fields(report@) is None,
        },
{
    let text = shaved(&chars_of(report), CharClass::Whitespace);
    let tokens = split_at(&text, CharClass::Only(' '));
    let ghost all = topology_tokens(report@);
    let pkname_key = chars_of("PKNAME");
    let name_key = chars_of("NAME");
    let partn_key = chars_of("PARTN");
    let mut parent: Option<Vec<char>> = None;
    let mut name: Option<Vec<char>> = None;
    let mut partition_number: Option<u32> = None;
    let ghost mut index: Option<Seq<char>> = None;
    let mut i: usize = 0;
    while i < tokens.len()
        invariant
            i <= tokens.len(),
            all == views(tokens@),
            all == topology_tokens(report@),
            pkname_key@ == "PKNAME"@,
            name_key@ == "NAME"@,
            partn_key@ == "PARTN"@,
            forall|j: int| 0 <= j < i ==> !bad_partition(#[trigger] all[j]),
            view_of(parent) == assigned(all.take(i as int), "PKNAME"@, false),
            view_of(name) == assigned(all.take(i as int), "NAME"@, true),
            index == assigned(all.take(i as int), "PARTN"@, false),
            match index {
                Some(text) => partition_number matches Some(n) && parse_number(
                    text,
                    u32::MAX as nat,
                ) == Some(n as nat),
                None => partition_number is None,
            },
        decreases tokens.len() - i,
    {
        let (key, value) = read_token(&tokens[i]);
        proof {
            lemma_keys_differ();
            let upto = all.take(i + 1);
            assert(upto.drop_last() =~= all.take(i as int));
        }
        match value {
            Some(value) => {
                if same_chars(&key, &pkname_key) {
                    if value.len() > 0 {
                        parent = Some(value);
                    }
                } else if same_chars(&key, &name_key) {
                    name = Some(value);
                } else if same_chars(&key, &partn_key) {
                    if value.len() > 0 {
                        match parse_number_in(&value, 0xffff_ffff) {
                            Some(n) => {
                                partition_number = Some(n as u32);
                                proof {
                                    index = Some(value@);
                                }
                            },
                            None => {
                                return None;
                            },
                        }
                    }
                }
            },
            None => {},
        }
        i += 1;
    }
    assert(all.take(i as int) =~= all);
    Some(Topology { parent: text_of(&parent), name: text_of(&name), partition_number })
}

/// Reads a topology report on the device at `real_device`.
pub fn parse_topology(real_device: &str, report: &str) -> (r: Result<BlockDevice, DeviceError>)
    ensures
        view_result(r) == topology(real_device@, report@),
{
    if trimmed(report).as_str().is_empty() {
        let about = quoted(real_device);
        return Err(
            DeviceError::DeviceInfo(
                joined("lsblk returned no output for device ", about.as_str()),
            ),
        );
    }
    match read_topology(report) {
        None => Err(DeviceError::DeviceInfo("Invalid partition number".to_owned())),
        Some(fields) => {
            let disk_name = match fields.parent {
                Some(parent) => parent,
                None => match fields.name {
                    Some(name) => name,
                    None => String::new(),
                },
            };
            if disk_name.as_str().is_empty() {
                Err(DeviceError::DeviceInfo("Could not determine device name".to_owned()))
            } else {
                Ok(
                    BlockDevice {
                        real_device: real_device.to_owned(),
                        disk_name,
                        partition_number: fields.partition_number,
                    },
                )
            }
        },
    }
}

/// What the topology query says of the device at `real_device`: the error
/// of a query that did not start or did not succeed, else what its report
/// holds.
pub open spec fn analysis(real_device: Seq<char>, outcome: ToolOutcomeView) -> Result<
    BlockDeviceView,
    DeviceErrorView,
> {
    match outcome {
        ToolOutcomeView::NotLaunched { reason } => Err(
            DeviceErrorView::DeviceInfo("Failed to execute lsblk: "@ + reason),
        ),
        ToolOutcomeView::Exited { code, stdout, stderr } => if code == Some(0i32) {
            topology(real_device, stdout)
        } else {
            Err(DeviceErrorView::DeviceInfo("lsblk failed with error: "@ + stderr))
        },
    }
}

/// Reads the outcome of the topology query on the device at `real_device`.
pub fn read_analysis(real_device: &str, outcome: &ToolOutcome) -> (r: Result<
    BlockDevice,
    DeviceError,
>)
    ensures
        view_result(r) == analysis(real_device@, outcome@),
{
    match outcome {
        ToolOutcome::NotLaunched { reason } => Err(
            DeviceError::DeviceInfo(joined("Failed to execute lsblk: ", reason.as_str())),
        ),
        ToolOutcome::Exited { code, stdout, stderr } => {
            let ok = match code {
                Some(c) => *c == 0,
                None => false,
            };
            if ok {
                parse_topology(real_device, stdout.as_str())
            } else {
                Err(DeviceError::DeviceInfo(joined("lsblk failed with error: ", stderr.as_str())))
            }
        },
    }
}

/// Finds out of which disk a device is a part: resolves the path, then
/// queries the topology of what it resolved to, once.
#[derive(Clone, Debug, PartialEq, Eq)]
pub enum DeviceAnalysis {
    /// The path is being resolved.
    Resolving { device_path: String },
    /// The topology query runs.
    Querying { real_device: String },
    Analyzed(BlockDevice),
    Failed(DeviceError),
}

/// What a [`DeviceAnalysis`] holds, with each text as a sequence of characters.
pub ghost enum DeviceAnalysisView {
    Resolving { device_path: Seq<char> },
    Querying { real_device: Seq<char> },
    Analyzed(BlockDeviceView),
    Failed(DeviceErrorView),
}

impl DeviceAnalysisView {
    /// The machine before the path has been resolved.
    pub open spec fn start(device_path: Seq<char>) -> Self {
        DeviceAnalysisView::Resolving { device_path }
    }

    /// The machine stopped with `r`.
    pub open spec fn finished(r: Result<BlockDeviceView, DeviceErrorView>) -> Self {
        match r {
            Ok(device) => DeviceAnalysisView::Analyzed(device),
            Err(e) => DeviceAnalysisView::Failed(e),
        }
    }

    /// What the machine asks of the host: nothing once it has ended.
    pub open spec fn request(self) -> RequestView {
        match self {
            DeviceAnalysisView::Resolving { device_path } => RequestView::Resolve {
                path: device_path,
            },
            DeviceAnalysisView::Querying { real_device } => RequestView::Run(
                InvocationView::new("lsblk"@).arg("-Pno"@).arg("pkname,name,partn"@).arg(
                    real_device,
                ),
            ),
            DeviceAnalysisView::Analyzed(_) | DeviceAnalysisView::Failed(_) => RequestView::Done,
        }
    }

    /// The machine after `reply`. A path that does not resolve is an error
    /// that names the path. A reply that answers no request of the machine
    /// changes nothing.
    pub open spec fn next(self, reply: ReplyView) -> Self {
        match (self, reply) {
            (
                DeviceAnalysisView::Resolving { device_path },
                ReplyView::Resolved(resolved),
            ) => match resolved {
                Some(real_device) => DeviceAnalysisView::Querying { real_device },
                None => DeviceAnalysisView::Failed(DeviceErrorView::NotFound(device_path)),
            },
            (
                DeviceAnalysisView::Querying { real_device },
                ReplyView::Tool(outcome),
            ) => DeviceAnalysisView::finished(analysis(real_device, outcome)),
            _ => self,
        }
    }

    /// `None` while the machine waits for the host, then the device or the
    /// error.
    pub open spec fn result(self) -> Option<Result<BlockDeviceView, DeviceErrorView>> {
        match self {
            DeviceAnalysisView::Analyzed(device) => Some(Ok(device)),
            DeviceAnalysisView::Failed(e) => Some(Err(e)),
            _ => None,
        }
    }
}

impl View for DeviceAnalysis {
    type V = DeviceAnalysisView;

    open spec fn view(&self) -> DeviceAnalysisView {
        match self {
            DeviceAnalysis::Resolving { device_path } => DeviceAnalysisView::Resolving {
                device_path: device_path@,
            },
            DeviceAnalysis::Querying { real_device } => DeviceAnalysisView::Querying {
                real_device: real_device@,
            },
            DeviceAnalysis::Analyzed(device) => DeviceAnalysisView::Analyzed(device@),
            DeviceAnalysis::Failed(e) => DeviceAnalysisView::Failed(e@),
        }
    }
}

/// Starts the analysis of the device at `device_path`.
pub fn analyze_device(device_path: &str) -> (m: DeviceAnalysis)
    ensures
        m@ == DeviceAnalysisView::start(device_path@),
{
    DeviceAnalysis::Resolving { device_path: device_path.to_owned() }
}

impl BlockDevice {
    /// A copy of the device.
    pub fn duplicate(&self) -> (copy: BlockDevice)
        ensures
            copy@ == self@,
    {
        BlockDevice {
            real_device: self.real_device.clone(),
            disk_name: self.disk_name.clone(),
            partition_number: self.partition_number,
        }
    }
}

impl DeviceError {
    /// A copy of the error.
    pub fn duplicate(&self) -> (copy: DeviceError)
        ensures
            copy@ == self@,
    {
        match self {
            DeviceError::NotFound(t) => DeviceError::NotFound(t.clone()),
            DeviceError::MissingTool(t) => DeviceError::MissingTool(t.clone()),
            DeviceError::DeviceInfo(t) => DeviceError::DeviceInfo(t.clone()),
            DeviceError::Io(t) => DeviceError::Io(t.clone()),
        }
    }
}

impl DeviceAnalysis {
    /// What the machine needs next.
    pub fn request(&self) -> (r: Request)
        ensures
            r@ == self@.request(),
    {
        match self {
            DeviceAnalysis::Resolving { device_path } => Request::Resolve {
                path: device_path.clone(),
            },
            DeviceAnalysis::Querying { real_device } => Request::Run(
                Invocation::new("lsblk").arg("-Pno").arg("pkname,name,partn").arg(
                    real_device.as_str(),
                ),
            ),
            DeviceAnalysis::Analyzed(_) | DeviceAnalysis::Failed(_) => Request::Done,
        }
    }

    /// The machine after the host's reply.
    pub fn advance(self, reply: Reply) -> (m: DeviceAnalysis)
        ensures
            m@ == self@.next(reply@),
    {
        match (self, reply) {
            (
                DeviceAnalysis::Resolving { device_path },
                Reply::Resolved(resolved),
            ) => match resolved {
                Some(real_device) => DeviceAnalysis::Querying { real_device },
                None => DeviceAnalysis::Failed(DeviceError::NotFound(device_path)),
            },
            (DeviceAnalysis::Querying { real_device }, Reply::Tool(outcome)) => {
                match read_analysis(real_device.as_str(), &outcome) {
                    Ok(device) => DeviceAnalysis::Analyzed(device),
                    Err(e) => DeviceAnalysis::Failed(e),
                }
            },
            (m, _) => m,
        }
    }

    /// `None` while the machine waits for the host, then the device or the
    /// error.
    pub fn result(&self) -> (r: Option<Result<BlockDevice, DeviceError>>)
        ensures
            view_outcome(r) == self@.result(),
    {
        match self {
            DeviceAnalysis::Analyzed(device) => Some(Ok(device.duplicate())),
            DeviceAnalysis::Failed(e) => Some(Err(e.duplicate())),
            _ => None,
        }
    }
}

/// A report that gives the device a name, no parent and no partition index
/// describes a whole disk: the device is its own disk and has no partition
/// number.
pub proof fn lemma_device_without_parent_is_its_disk(
    real_device: Seq<char>,
    report: Seq<char>,
    name: Seq<char>,
)
    requires
        trim(report).len() > 0,
        assigned(topology_tokens(report), "PKNAME"@, false) is None,
        assigned(topology_tokens(report), "PARTN"@, false) is None,
        assigned(topology_tokens(report), "NAME"@, true) == Some(name),
        name.len() > 0,
    ensures
        topology(real_device, report) == Ok::<BlockDeviceView, DeviceErrorView>(
            BlockDeviceView { real_device, disk_name: name, partition_number: None },
        ),
{
    let tokens = topology_tokens(report);
    assert forall|i: int| 0 <= i < tokens.len() implies !bad_partition(#[trigger] tokens[i]) by {
        if assigns(tokens[i], "PARTN"@, false) {
            lemma_assigned_is_some(tokens, "PARTN"@, false, i);
        }
    }
}

/// Where some token assigns a value to `key`, the tokens give it one.
pub proof fn lemma_assigned_is_some(
    tokens: Seq<Seq<char>>,
    key: Seq<char>,
    keep_empty: bool,
    i: int,
)
    requires
        0 <= i < tokens.len(),
        assigns(tokens[i], key, keep_empty),
    ensures
        assigned(tokens, key, keep_empty) is Some,
    decreases tokens.len(),
{
    if i < tokens.len() - 1 && !assigns(tokens.last(), key, keep_empty) {
        lemma_assigned_is_some(tokens.drop_last(), key, keep_empty, i);
    }
}

/// The analysis asks for something exactly as long as it has no result.
pub proof fn lemma_analysis_asks_until_finished(m: DeviceAnalysisView)
    ensures
        m.request() is Done <==> m.result() is Some,
{
}

/// An analysis that succeeds names a disk, and a path that resolved: the one
/// that was queried.
pub proof fn lemma_analysed_device_has_a_disk(
    m: DeviceAnalysisView,
    reply: ReplyView,
    device: BlockDeviceView,
)
    requires
        m.result() is None,
        m.next(reply).result() == Some(Ok::<BlockDeviceView, DeviceErrorView>(device)),
    ensures
        device.disk_name.len() > 0,
        m == (DeviceAnalysisView::Querying { real_device: device.real_device }),
{
}

/// The token that gives `key` the value `value`: `KEY="value"`.
pub open spec fn token(key: Seq<char>, value: Seq<char>) -> Seq<char> {
    key + seq!['='] + (seq!['"'] + value + seq!['"'])
}

/// A text that can stand in a token as it is: it holds no space, no `=` and
/// no double quote.
pub open spec fn plain(text: Seq<char>) -> bool {
    forall|i: int| 0 <= i < text.len() ==> text[i] != ' ' && text[i] != '=' && text[i] != '"'
}

/// A token of a plain key and a plain value is read back as that key and
/// that value, and holds no space.
pub proof fn lemma_token_reads_back(key: Seq<char>, value: Seq<char>)
    requires
        plain(key),
        plain(value),
    ensures
        token_key(token(key, value)) == key,
        token_value(token(key, value)) == Some(value),
        forall|i: int| 0 <= i < token(key, value).len() ==> token(key, value)[i] != ' ',
        token(key, value).len() > 0,
        !is_space(token(key, value).last()),
{
    let quoted = seq!['"'] + value + seq!['"'];
    let equals = CharClass::Only('=');
    lemma_split_whole(quoted, equals);
    lemma_split_joined(key, '=', quoted, equals);
    lemma_strip_enclosed(value, '"');
}

proof fn lemma_keys_are_plain()
    ensures
        plain("PKNAME"@),
        plain("NAME"@),
        plain("PARTN"@),
{
    reveal_strlit("PKNAME");
    reveal_strlit("NAME");
    reveal_strlit("PARTN");
}

/// The report that holds the three tokens, with a space between one and the
/// next.
pub open spec fn report_of(
    parent: Seq<char>,
    name: Seq<char>,
    partition: Seq<char>,
) -> Seq<char> {
    token("PKNAME"@, parent) + seq![' '] + (token("NAME"@, name) + seq![' '] + token(
        "PARTN"@,
        partition,
    ))
}

/// A report of three tokens with plain values gives each key its value; an
/// empty parent or partition index counts as absent.
pub proof fn lemma_report_reads_back(parent: Seq<char>, name: Seq<char>, partition: Seq<char>)
    requires
        plain(parent),
        plain(name),
        plain(partition),
    ensures
        trim(report_of(parent, name, partition)).len() > 0,
        ({
            let tokens = topology_tokens(report_of(parent, name, partition));
            &&& tokens == seq![
                token("PKNAME"@, parent),
                token("NAME"@, name),
                token("PARTN"@, partition),
            ]
            &&& assigned(tokens, "PKNAME"@, false) == (if parent.len() > 0 {
                Some(parent)
            } else {
                None
            })
            &&& assigned(tokens, "NAME"@, true) == Some(name)
            &&& assigned(tokens, "PARTN"@, false) == (if partition.len() > 0 {
                Some(partition)
            } else {
                None
            })
        }),
{
    reveal_strlit("PKNAME");
    lemma_keys_differ();
    lemma_keys_are_plain();
    let t0 = token("PKNAME"@, parent);
    let t1 = token("NAME"@, name);
    let t2 = token("PARTN"@, partition);
    lemma_token_reads_back("PKNAME"@, parent);
    lemma_token_reads_back("NAME"@, name);
    lemma_token_reads_back("PARTN"@, partition);
    let report = report_of(parent, name, partition);
    let space = CharClass::Only(' ');
    lemma_split_whole(t2, space);
    lemma_split_joined(t1, ' ', t2, space);
    lemma_split_joined(t0, ' ', t1 + seq![' '] + t2, space);
    lemma_trim_keeps(report);
    let tokens = topology_tokens(report);
    let two = tokens.drop_last();
    let one = two.drop_last();
    assert(assigned(one.drop_last(), "PKNAME"@, false) is None);
    assert(assigned(one, "PKNAME"@, false) == (if parent.len() > 0 {
        Some(parent)
    } else {
        None
    }));
    assert(assigned(tokens, "PKNAME"@, false) == assigned(two, "PKNAME"@, false));
    assert(assigned(two, "NAME"@, true) == Some(name));
    assert(assigned(one.drop_last(), "PARTN"@, false) is None);
    assert(assigned(one, "PARTN"@, false) is None);
    assert(assigned(two, "PARTN"@, false) is None);
}

/// For every name that is plain and not empty, the report on a whole disk of
/// that name, with its empty parent and its empty partition index, gives the
/// disk itself as the parent and no partition number.
pub proof fn lemma_whole_disk_report_names_itself(real_device: Seq<char>, name: Seq<char>)
    requires
        name.len() > 0,
        plain(name),
    ensures
        topology(real_device, report_of(Seq::empty(), name, Seq::empty())) == Ok::<
            BlockDeviceView,
            DeviceErrorView,
        >(BlockDeviceView { real_device, disk_name: name, partition_number: None }),
{
    lemma_report_reads_back(Seq::empty(), name, Seq::empty());
    lemma_device_without_parent_is_its_disk(
        real_device,
        report_of(Seq::empty(), name, Seq::empty()),
        name,
    );
}

/// For every parent that is plain and not empty, every plain name and every
/// partition index, the report on that partition gives the parent as the
/// disk and the index as the partition number.
pub proof fn lemma_partition_report_names_parent_and_index(
    real_device: Seq<char>,
    parent: Seq<char>,
    name: Seq<char>,
    index: u32,
)
    requires
        parent.len() > 0,
        plain(parent),
        plain(name),
    ensures
        topology(real_device, report_of(parent, name, decimal(index as nat))) == Ok::<
            BlockDeviceView,
            DeviceErrorView,
        >(BlockDeviceView { real_device, disk_name: parent, partition_number: Some(index) }),
{
    let number = decimal(index as nat);
    lemma_decimal_reads_back(index as nat, u32::MAX as nat);
    assert(plain(number));
    lemma_report_reads_back(parent, name, number);
    let tokens = topology_tokens(report_of(parent, name, number));
    assert forall|i: int| 0 <= i < tokens.len() implies !bad_partition(#[trigger] tokens[i]) by {
        lemma_keys_are_plain();
        lemma_token_reads_back("PKNAME"@, parent);
        lemma_token_reads_back("NAME"@, name);
        lemma_token_reads_back("PARTN"@, number);
        lemma_keys_differ();
    }
}

/// The report on the first partition of the disk `sda` names `sda` as the
/// disk and 1 as the partition number.
pub proof fn lemma_first_partition_of_sda(real_device: Seq<char>)
    ensures
        topology(real_device, "PKNAME=\"sda\" NAME=\"sda1\" PARTN=\"1\""@) == Ok::<
            BlockDeviceView,
            DeviceErrorView,
        >(BlockDeviceView { real_device, disk_name: "sda"@, partition_number: Some(1u32) }),
{
    reveal_strlit("PKNAME=\"sda\" NAME=\"sda1\" PARTN=\"1\"");
    reveal_strlit("PKNAME");
    reveal_strlit("NAME");
    reveal_strlit("PARTN");
    reveal_strlit("sda");
    reveal_strlit("sda1");
    assert("PKNAME=\"sda\" NAME=\"sda1\" PARTN=\"1\""@ =~= report_of(
        "sda"@,
        "sda1"@,
        decimal(1),
    ));
    lemma_partition_report_names_parent_and_index(real_device, "sda"@, "sda1"@, 1);
}

} // verus!
