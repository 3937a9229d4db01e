//! Findings, their severities and categories, and the scan report that
//! collects them.

use vstd::prelude::*;

verus! {

/// How serious a finding is, from most to least.
#[derive(Clone, Copy, Debug, PartialEq, Eq, Structural)]
pub enum Severity {
    Critical,
    High,
    Medium,
    Low,
    Info,
}

/// The part of the system a finding is about.
#[derive(Clone, Copy, Debug, PartialEq, Eq, Structural)]
pub enum Category {
    Port,
    Service,
    Docker,
    Nginx,
    Ssh,
    System,
}

/// The upper-case label a severity is shown with.
pub open spec fn severity_label(s: Severity) -> Seq<char> {
    match s {
        Severity::Critical => "CRITICAL"@,
        Severity::High => "HIGH"@,
        Severity::Medium => "MEDIUM"@,
        Severity::Low => "LOW"@,
        Severity::Info => "INFO"@,
    }
}

/// The upper-case label a category is shown with.
pub open spec fn category_label(c: Category) -> Seq<char> {
    match c {
        Category::Port => "PORT"@,
        Category::Service => "SERVICE"@,
        Category::Docker => "DOCKER"@,
        Category::Nginx => "NGINX"@,
        Category::Ssh => "SSH"@,
        Category::System => "SYSTEM"@,
    }
}

impl Severity {
    /// The label this severity is displayed with.
    pub fn label(&self) -> (r: String)
        ensures
            r@ == severity_label(*self),
    {
        match self {
            Severity::Critical => String::from_str("CRITICAL"),
            Severity::High => String::from_str("HIGH"),
            Severity::Medium => String::from_str("MEDIUM"),
            Severity::Low => String::from_str("LOW"),
            Severity::Info => String::from_str("INFO"),
        }
    }
}

impl Category {
    /// The label this category is displayed with.
    pub fn label(&self) -> (r: String)
        ensures
            r@ == category_label(*self),
    {
        match self {
            Category::Port => String::from_str("PORT"),
            Category::Service => String::from_str("SERVICE"),
            Category::Docker => String::from_str("DOCKER"),
            Category::Nginx => String::from_str("NGINX"),
            Category::Ssh => String::from_str("SSH"),
            Category::System => String::from_str("SYSTEM"),
        }
    }
}

/// A listening port with the service expected behind it.
#[derive(Clone, Debug)]
pub struct PortEntry {
    pub port: u16,
    pub service: String,
    pub description: String,
}

pub struct PortEntryView {
    pub port: u16,
    pub service: Seq<char>,
    pub description: Seq<char>,
}

impl View for PortEntry {
    type V = PortEntryView;

    open spec fn view(&self) -> PortEntryView {
        PortEntryView { port: self.port, service: self.service@, description: self.description@ }
    }
}

/// One running container as `docker ps` lists it.
#[derive(Clone, Debug)]
pub struct ContainerEntry {
    pub name: String,
    pub image: String,
    pub status: String,
    pub ports: String,
}

pub struct ContainerEntryView {
    pub name: Seq<char>,
    pub image: Seq<char>,
    pub status: Seq<char>,
    pub ports: Seq<char>,
}

impl View for ContainerEntry {
    type V = ContainerEntryView;

    open spec fn view(&self) -> ContainerEntryView {
        ContainerEntryView {
            name: self.name@,
            image: self.image@,
            status: self.status@,
            ports: self.ports@,
        }
    }
}

/// Machine-readable details attached to a finding.
#[derive(Clone, Debug)]
pub enum RawData {
    OpenPorts(Vec<PortEntry>),
    Services(Vec<String>),
    SshDirective { directive: String, current: String },
    KeyCount(u64),
    UfwStatus(String),
    DiskUsage(u8),
    Memory { total_mb: String, available_mb: String, used_pct: u8 },
    DockerVersion(String),
    Containers(Vec<ContainerEntry>),
    Dangling(Vec<String>),
    ConfigPath(String),
}

pub enum RawView {
    OpenPorts(Seq<PortEntryView>),
    Services(Seq<Seq<char>>),
    SshDirective { directive: Seq<char>, current: Seq<char> },
    KeyCount(u64),
    UfwStatus(Seq<char>),
    DiskUsage(u8),
    Memory { total_mb: Seq<char>, available_mb: Seq<char>, used_pct: u8 },
    DockerVersion(Seq<char>),
    Containers(Seq<ContainerEntryView>),
    Dangling(Seq<Seq<char>>),
    ConfigPath(Seq<char>),
}

impl View for RawData {
    type V = RawView;

    open spec fn view(&self) -> RawView {
        match self {
            RawData::OpenPorts(v) => RawView::OpenPorts(v@.map_values(|p: PortEntry| p@)),
            RawData::Services(v) => RawView::Services(v@.map_values(|s: String| s@)),
            RawData::SshDirective { directive, current } => RawView::SshDirective {
                directive: directive@,
                current: current@,
            },
            RawData::KeyCount(n) => RawView::KeyCount(*n),
            RawData::UfwStatus(s) => RawView::UfwStatus(s@),
            RawData::DiskUsage(u) => RawView::DiskUsage(*u),
            RawData::Memory { total_mb, available_mb, used_pct } => RawView::Memory {
                total_mb: total_mb@,
                available_mb: available_mb@,
                used_pct: *used_pct,
            },
            RawData::DockerVersion(s) => RawView::DockerVersion(s@),
            RawData::Containers(v) => RawView::Containers(v@.map_values(|c: ContainerEntry| c@)),
            RawData::Dangling(v) => RawView::Dangling(v@.map_values(|s: String| s@)),
            RawData::ConfigPath(s) => RawView::ConfigPath(s@),
        }
    }
}

/// One result of a check: what was found, how serious it is, and what to do.
#[derive(Clone, Debug)]
pub struct Finding {
    pub category: Category,
    pub severity: Severity,
    pub title: String,
    pub description: String,
    pub remediation: String,
    pub raw: Option<RawData>,
}

pub struct FindingView {
    pub category: Category,
    pub severity: Severity,
    pub title: Seq<char>,
    pub description: Seq<char>,
    pub remediation: Seq<char>,
    pub raw: Option<RawView>,
}

impl View for Finding {
    type V = FindingView;

    open spec fn view(&self) -> FindingView {
        FindingView {
            category: self.category,
            severity: self.severity,
            title: self.title@,
            description: self.description@,
            remediation: self.remediation@,
            raw: match self.raw {
                Some(r) => Some(r@),
                None => None,
            },
        }
    }
}

/// The views of a list of findings.
pub open spec fn finding_views(fs: Seq<Finding>) -> Seq<FindingView> {
    fs.map_values(|f: Finding| f@)
}

/// A finding with no raw details.
pub open spec fn plain_finding(
    category: Category,
    severity: Severity,
    title: Seq<char>,
    description: Seq<char>,
    remediation: Seq<char>,
) -> FindingView {
    FindingView { category, severity, title, description, remediation, raw: None }
}

/// A finding with raw details.
pub open spec fn raw_finding(
    category: Category,
    severity: Severity,
    title: Seq<char>,
    description: Seq<char>,
    remediation: Seq<char>,
    raw: RawView,
) -> FindingView {
    FindingView { category, severity, title, description, remediation, raw: Some(raw) }
}

/// Builds a finding without raw details.
pub fn new_finding(
    category: Category,
    severity: Severity,
    title: String,
    description: String,
    remediation: String,
) -> (r: Finding)
    ensures
        r@ == plain_finding(category, severity, title@, description@, remediation@),
{
    Finding { category, severity, title, description, remediation, raw: None }
}

/// Builds a finding with raw details.
pub fn new_raw_finding(
    category: Category,
    severity: Severity,
    title: String,
    description: String,
    remediation: String,
    raw: RawData,
) -> (r: Finding)
    ensures
        r@ == raw_finding(category, severity, title@, description@, remediation@, raw@),
{
    Finding { category, severity, title, description, remediation, raw: Some(raw) }
}

/// Every finding is in category `c`.
pub open spec fn all_in_category(fs: Seq<FindingView>, c: Category) -> bool {
    forall|i: int| 0 <= i < fs.len() ==> (#[trigger] fs[i]).category == c
}

pub proof fn lemma_all_in_category_concat(a: Seq<FindingView>, b: Seq<FindingView>, c: Category)
    requires
        all_in_category(a, c),
        all_in_category(b, c),
    ensures
        all_in_category(a + b, c),
{
    assert forall|i: int| 0 <= i < (a + b).len() implies (#[trigger] (a + b)[i]).category == c by {
        if i < a.len() {
            assert((a + b)[i] == a[i]);
        } else {
            assert((a + b)[i] == b[i - a.len()]);
        }
    }
}

/// How many of the findings have the given severity.
pub open spec fn count_severity(fs: Seq<Finding>, s: Severity) -> nat
    decreases fs.len(),
{
    if fs.len() == 0 {
        0
    } else {
        count_severity(fs.drop_last(), s) + if fs.last().severity == s {
            1nat
        } else {
            0nat
        }
    }
}

/// The host name from the output of `hostname`: the output trimmed, or
/// empty when the command failed.
pub fn hostname_from_output(output: Option<&str>) -> (r: String)
    ensures
        r@ == match output {
            Some(o) => crate::text::trim(o@),
            None => Seq::<char>::empty(),
        },
{
    match output {
        Some(o) => crate::text::trim_str(o),
        None => String::new(),
    }
}

/// A point in time as seconds and nanoseconds since the Unix epoch, in UTC.
#[derive(Clone, Copy, Debug, PartialEq, Eq, Structural)]
pub struct Timestamp {
    pub secs: i64,
    pub nanos: u32,
}

/// Calls `chrono::Utc::now` and hands out the instant as seconds and
/// nanoseconds since the epoch. The current time depends on the clock, so
/// nothing is stated of it.
#[verifier::external_body]
fn utc_now() -> Timestamp {
    let now = chrono::Utc::now();
    Timestamp { secs: now.timestamp(), nanos: now.timestamp_subsec_nanos() }
}

/// The result of one scan: when and where it ran, how long it took, the
/// findings, and how many of them there are at each severity.
#[derive(Clone, Debug)]
pub struct ScanReport {
    pub timestamp: Timestamp,
    pub hostname: String,
    pub duration_ms: u64,
    pub total_findings: u32,
    pub criticals: u32,
    pub highs: u32,
    pub mediums: u32,
    pub lows: u32,
    pub infos: u32,
    pub findings: Vec<Finding>,
}

impl ScanReport {
    /// A report over the given findings, stamped with the given instant.
    /// Each count is the number of findings at that severity, kept in 32
    /// bits as the report's counters are.
    pub fn at(timestamp: Timestamp, hostname: String, duration_ms: u64, findings: Vec<Finding>) -> (r:
        ScanReport)
        ensures
            r.hostname == hostname,
            r.duration_ms == duration_ms,
            r.findings == findings,
            r.total_findings == findings@.len() as u32,
            r.criticals == count_severity(findings@, Severity::Critical) as u32,
            r.highs == count_severity(findings@, Severity::High) as u32,
            r.mediums == count_severity(findings@, Severity::Medium) as u32,
            r.lows == count_severity(findings@, Severity::Low) as u32,
            r.infos == count_severity(findings@, Severity::Info) as u32,
            r.timestamp == timestamp,
    {
        let mut c: usize = 0;
        let mut h: usize = 0;
        let mut m: usize = 0;
        let mut l: usize = 0;
        let mut n: usize = 0;
        let mut i: usize = 0;
        while i < findings.len()
            invariant
                i <= findings@.len(),
                c == count_severity(findings@.take(i as int), Severity::Critical),
                h == count_severity(findings@.take(i as int), Severity::High),
                m == count_severity(findings@.take(i as int), Severity::Medium),
                l == count_severity(findings@.take(i as int), Severity::Low),
                n == count_severity(findings@.take(i as int), Severity::Info),
                c + h + m + l + n == i,
            decreases findings@.len() - i,
        {
            assert(findings@.take(i + 1).drop_last() == findings@.take(i as int));
            match findings[i].severity {
                Severity::Critical => c += 1,
                Severity::High => h += 1,
                Severity::Medium => m += 1,
                Severity::Low => l += 1,
                Severity::Info => n += 1,
            }
            i += 1;
        }
        assert(findings@.take(findings@.len() as int) == findings@);
        ScanReport {
            timestamp,
            hostname,
            duration_ms,
            total_findings: findings.len() as u32,
            criticals: c as u32,
            highs: h as u32,
            mediums: m as u32,
            lows: l as u32,
            infos: n as u32,
            findings,
        }
    }

    /// A report over the given findings, stamped with the current time read
    /// from the clock; otherwise as `at`.
    pub fn new(hostname: String, duration_ms: u64, findings: Vec<Finding>) -> (r: ScanReport)
        ensures
            r.hostname == hostname,
            r.duration_ms == duration_ms,
            r.findings == findings,
            r.total_findings == findings@.len() as u32,
            r.criticals == count_severity(findings@, Severity::Critical) as u32,
            r.highs == count_severity(findings@, Severity::High) as u32,
            r.mediums == count_severity(findings@, Severity::Medium) as u32,
            r.lows == count_severity(findings@, Severity::Low) as u32,
            r.infos == count_severity(findings@, Severity::Info) as u32,
    {
        ScanReport::at(utc_now(), hostname, duration_ms, findings)
    }
}

impl ScanReport {
    /// Whether the report holds a critical or high finding, the case in
    /// which a command-line scan ends with a failure status.
    pub fn needs_attention(&self) -> (b: bool)
        ensures
            b == (self.criticals > 0 || self.highs > 0),
    {
        self.criticals > 0 || self.highs > 0
    }
}

/// Every finding has exactly one severity, so the five counts add up to
/// the number of findings.
pub proof fn lemma_severity_counts_sum(fs: Seq<Finding>)
    ensures
        count_severity(fs, Severity::Critical) + count_severity(fs, Severity::High)
            + count_severity(fs, Severity::Medium) + count_severity(fs, Severity::Low)
            + count_severity(fs, Severity::Info) == fs.len(),
    decreases fs.len(),
{
    if fs.len() > 0 {
        lemma_severity_counts_sum(fs.drop_last());
    }
}

/// A report's five severity counters add up to its total whenever the
/// number of findings fits the counters.
pub proof fn law_report_counts_add_up(findings: Seq<Finding>)
    requires
        findings.len() <= u32::MAX,
    ensures
        (count_severity(findings, Severity::Critical) as u32) + (count_severity(
            findings,
            Severity::High,
        ) as u32) + (count_severity(findings, Severity::Medium) as u32) + (count_severity(
            findings,
            Severity::Low,
        ) as u32) + (count_severity(findings, Severity::Info) as u32) == findings.len() as u32,
{
    lemma_severity_counts_sum(findings);
}


/// Each severity counter counts exactly the findings of that severity.
pub proof fn law_count_is_findings_of_severity(fs: Seq<Finding>, s: Severity)
    ensures
        count_severity(fs, s) == fs.filter(|f: Finding| f.severity == s).len(),
    decreases fs.len(),
{
    reveal(Seq::filter);
    if fs.len() > 0 {
        law_count_is_findings_of_severity(fs.drop_last(), s);
    }
}

} // verus!
