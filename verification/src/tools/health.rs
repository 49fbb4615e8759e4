//! Machine-wide health: what is over its threshold, the worst first.

use crate::config::HealthConfig;
use crate::diagnostics::{
    app_cpu_score, app_memory_score, cpu_score, drive_score, memory_pressure_score, memory_score,
    pressure_score, severity, severity_of, storage_score,
};
use crate::errors::WinkitError;
use crate::floats::{at_least, is_at_least};
use crate::json::Json;
use crate::models::{
    ApplicationGroupInfo, ApplicationGroupInfoView, DriveInfo, DriveInfoView, Real,
    ResourceSnapshot, ResourceSnapshotView,
};
use crate::order::{comes_before, is_stable_order, key_of_text, keys_view, stable_order, text_key};
use crate::permissions::Capability;
use crate::providers::windows::WindowsBackend;
use crate::text::{chars_of, text_of};
use crate::tools::args::{clamp_limit, limit_for, optional_usize, usize_at};
use crate::tools::schema::{input_schema, param_views, schema_view, Param, ParamKind, ParamView};
use crate::tools::toolset::{ToolDefinition, ToolView};
use vstd::prelude::*;
use vstd::string::*;

verus! {

/// A measured amount, or the threshold it is held against.
#[derive(Debug, Clone, Copy)]
pub enum Amount {
    /// Percent of what all processors can do.
    CpuPercent(Real),
    /// Memory, in units of 1048576 bytes.
    Megabytes(u64),
    /// Space that is free, in bytes.
    FreeBytes(u64),
    /// Percent of the memory that is taken.
    LoadPercent(Real),
    /// Memory, in bytes.
    Bytes(u64),
    /// How fast memory is taken, in bytes per second.
    BytesPerSecond(i64),
    /// A temperature.
    Celsius(Real),
    /// Percent of a device's life that is used up.
    UsedPercent(u32),
    /// Percent of a battery's capacity that is left.
    HealthPercent(Real),
    /// Percent of the full signal.
    SignalPercent(u32),
    /// Whether something was seen.
    Seen(bool),
}

/// One thing that is over its threshold.
#[derive(Debug)]
pub struct HealthIssue {
    pub layer: &'static str,
    pub subject: String,
    pub kind: &'static str,
    pub value: Amount,
    pub threshold: Amount,
    pub score: u8,
    pub category: &'static str,
    pub severity: &'static str,
}

/// [`HealthIssue`] taken by its views.
#[verifier::ext_equal]
pub struct IssueView {
    pub layer: Seq<char>,
    pub subject: Seq<char>,
    pub kind: Seq<char>,
    pub value: Amount,
    pub threshold: Amount,
    pub score: u8,
    pub category: Seq<char>,
    pub severity: Seq<char>,
}

impl View for HealthIssue {
    type V = IssueView;

    open spec fn view(&self) -> IssueView {
        IssueView {
            layer: self.layer@,
            subject: self.subject@,
            kind: self.kind@,
            value: self.value,
            threshold: self.threshold,
            score: self.score,
            category: self.category@,
            severity: self.severity@,
        }
    }
}

impl Clone for HealthIssue {
    fn clone(&self) -> (r: Self)
        ensures
            r@ == self@,
    {
        HealthIssue {
            layer: self.layer,
            subject: self.subject.clone(),
            kind: self.kind,
            value: self.value,
            threshold: self.threshold,
            score: self.score,
            category: self.category,
            severity: self.severity,
        }
    }
}

/// The issues taken by their views.
pub open spec fn issue_views(issues: Seq<HealthIssue>) -> Seq<IssueView> {
    issues.map_values(|i: HealthIssue| i@)
}

/// The space on one volume.
#[derive(Debug)]
pub struct DriveHealth {
    pub drive: String,
    pub total_bytes: Option<u64>,
    pub free_bytes: Option<u64>,
    pub low_disk_space: bool,
}

/// The machine as a whole.
#[derive(Debug)]
pub struct SystemHealth {
    pub memory_load_percent: Option<Real>,
    pub total_memory_bytes: Option<u64>,
    pub available_memory_bytes: Option<u64>,
    pub memory_pressure: bool,
    pub drives: Vec<DriveHealth>,
}

/// The health report.
#[derive(Debug)]
pub struct SystemHealthReport {
    pub applications: Vec<ApplicationGroupInfo>,
    pub system: SystemHealth,
    pub issues: Vec<HealthIssue>,
}

/// A path without the separators at its end.
pub open spec fn label_of(root: Seq<char>) -> Seq<char>
    decreases root.len(),
{
    if root.len() > 0 && (root.last() == '\\' || root.last() == '/') {
        label_of(root.drop_last())
    } else {
        root
    }
}

/// A path without the separators at its end.
pub fn drive_label(root: &str) -> (r: String)
    ensures
        r@ == label_of(root@),
{
    let v = chars_of(root);
    let mut n: usize = v.len();
    assert(v@.take(n as int) =~= root@);
    while n > 0 && (v[n - 1] == '\\' || v[n - 1] == '/')
        invariant
            n <= v@.len(),
            v@ == root@,
            label_of(root@) == label_of(v@.take(n as int)),
        decreases n,
    {
        assert(v@.take(n as int).drop_last() =~= v@.take(n - 1));
        n = n - 1;
    }
    let r = text_of(&v, 0, n);
    assert(r@ =~= v@.take(n as int));
    r
}

/// Does the application keep the processor busy?
pub open spec fn high_cpu(g: ApplicationGroupInfoView, config: HealthConfig) -> bool {
    g.cpu_percent matches Some(c) && at_least(c, config.high_cpu_percent)
}

/// Does the application take up much memory?
pub open spec fn high_memory(g: ApplicationGroupInfoView, config: HealthConfig) -> bool {
    g.total_working_set_bytes >= config.high_memory_bytes
}

/// What an application is found to be.
pub open spec fn status_of(g: ApplicationGroupInfoView, config: HealthConfig) -> Seq<char> {
    if high_cpu(g, config) && high_memory(g, config) {
        "high_cpu_and_memory"@
    } else if high_cpu(g, config) {
        "high_cpu"@
    } else if high_memory(g, config) {
        "high_memory"@
    } else {
        "normal"@
    }
}

/// The issue of an application that keeps the processor busy.
pub open spec fn cpu_issue(g: ApplicationGroupInfoView, config: HealthConfig) -> IssueView {
    let score = cpu_score(g.cpu_percent->0);
    IssueView {
        layer: "application"@,
        subject: g.display_name,
        kind: "high_cpu"@,
        value: Amount::CpuPercent(g.cpu_percent->0),
        threshold: Amount::CpuPercent(config.high_cpu_percent),
        score,
        category: "app_cpu"@,
        severity: severity_of(score),
    }
}

/// The issue of an application that takes up much memory.
pub open spec fn memory_issue(
    g: ApplicationGroupInfoView,
    total_memory_bytes: Option<u64>,
    config: HealthConfig,
) -> IssueView {
    let score = memory_score(g.total_working_set_bytes, total_memory_bytes);
    IssueView {
        layer: "application"@,
        subject: g.display_name,
        kind: "high_memory"@,
        value: Amount::Megabytes((g.total_working_set_bytes / 1048576) as u64),
        threshold: Amount::Megabytes((config.high_memory_bytes / 1048576) as u64),
        score,
        category: "app_memory"@,
        severity: severity_of(score),
    }
}

/// The issues of one application.
pub open spec fn group_issues(
    g: ApplicationGroupInfoView,
    total_memory_bytes: Option<u64>,
    config: HealthConfig,
) -> Seq<IssueView> {
    let cpu = if high_cpu(g, config) {
        seq![cpu_issue(g, config)]
    } else {
        Seq::empty()
    };
    if high_memory(g, config) {
        cpu.push(memory_issue(g, total_memory_bytes, config))
    } else {
        cpu
    }
}

/// The issues of all applications.
pub open spec fn application_issues(
    groups: Seq<ApplicationGroupInfoView>,
    total_memory_bytes: Option<u64>,
    config: HealthConfig,
) -> Seq<IssueView>
    decreases groups.len(),
{
    if groups.len() == 0 {
        Seq::empty()
    } else {
        application_issues(groups.drop_last(), total_memory_bytes, config) + group_issues(
            groups.last(),
            total_memory_bytes,
            config,
        )
    }
}

/// Is there little space left on the volume?
pub open spec fn low_space(d: DriveInfoView, config: HealthConfig) -> bool {
    d.free_bytes matches Some(f) && f <= config.low_disk_free_bytes
}

/// The issue of a volume with little space left.
pub open spec fn drive_issue(d: DriveInfoView, config: HealthConfig) -> IssueView {
    let score = drive_score(d.free_bytes, d.total_bytes);
    IssueView {
        layer: "system"@,
        subject: label_of(d.root),
        kind: "low_disk_space"@,
        value: Amount::FreeBytes(d.free_bytes->0),
        threshold: Amount::FreeBytes(config.low_disk_free_bytes),
        score,
        category: "storage"@,
        severity: severity_of(score),
    }
}

/// The issues of all volumes.
pub open spec fn drive_issues(drives: Seq<DriveInfoView>, config: HealthConfig) -> Seq<IssueView>
    decreases drives.len(),
{
    if drives.len() == 0 {
        Seq::empty()
    } else if low_space(drives.last(), config) {
        drive_issues(drives.drop_last(), config).push(drive_issue(drives.last(), config))
    } else {
        drive_issues(drives.drop_last(), config)
    }
}

/// Is the memory under pressure?
pub open spec fn under_pressure(r: ResourceSnapshotView, config: HealthConfig) -> bool {
    r.memory_load_percent matches Some(load) && at_least(load, config.high_memory_load_percent)
}

/// The issue of a memory under pressure.
pub open spec fn pressure_issue(r: ResourceSnapshotView, config: HealthConfig) -> IssueView {
    let score = pressure_score(
        r.memory_load_percent->0,
        r.available_memory_bytes,
        r.total_memory_bytes,
    );
    IssueView {
        layer: "system"@,
        subject: "memory"@,
        kind: "memory_pressure"@,
        value: Amount::LoadPercent(r.memory_load_percent->0),
        threshold: Amount::LoadPercent(config.high_memory_load_percent),
        score,
        category: "memory_pressure"@,
        severity: severity_of(score),
    }
}

/// All issues, as they are found.
pub open spec fn found_issues(
    groups: Seq<ApplicationGroupInfoView>,
    resources: ResourceSnapshotView,
    drives: Seq<DriveInfoView>,
    config: HealthConfig,
) -> Seq<IssueView> {
    let found = application_issues(groups, resources.total_memory_bytes, config) + drive_issues(
        drives,
        config,
    );
    if under_pressure(resources, config) {
        found.push(pressure_issue(resources, config))
    } else {
        found
    }
}

/// By what an issue is ranked: the higher score first, then by subject.
pub open spec fn issue_key(i: IssueView) -> Seq<u64> {
    seq![(255 - i.score) as u64] + text_key(i.subject)
}

/// The keys of all issues.
pub open spec fn issue_keys(issues: Seq<IssueView>) -> Seq<Seq<u64>> {
    issues.map_values(|i: IssueView| issue_key(i))
}

/// Are `ranked` the found issues in the order of their rank?
pub open spec fn is_ranking(ranked: Seq<IssueView>, found: Seq<IssueView>) -> bool {
    exists|order: Seq<usize>| #[trigger]
        is_stable_order(issue_keys(found), order) && ranks_by(ranked, found, order)
}

/// Are `ranked` the found issues in this order?
pub open spec fn ranks_by(ranked: Seq<IssueView>, found: Seq<IssueView>, order: Seq<usize>) -> bool {
    ranked.len() == found.len() && forall|i: int|
        0 <= i < ranked.len() ==> #[trigger] ranked[i] == found[order[i] as int]
}

/// Does the entry tell of this volume?
pub open spec fn tells_of(h: DriveHealth, d: DriveInfoView, config: HealthConfig) -> bool {
    &&& h.drive@ == label_of(d.root)
    &&& h.total_bytes == d.total_bytes
    &&& h.free_bytes == d.free_bytes
    &&& h.low_disk_space == low_space(d, config)
}

/// The groups taken by their views.
pub open spec fn group_views(groups: Seq<ApplicationGroupInfo>) -> Seq<ApplicationGroupInfoView> {
    groups.map_values(|g: ApplicationGroupInfo| g@)
}

/// The volumes taken by their views.
pub open spec fn drive_views(drives: Seq<DriveInfo>) -> Seq<DriveInfoView> {
    drives.map_values(|d: DriveInfo| d@)
}

/// Is it the health report on these measurements?
pub open spec fn reports_health(
    r: SystemHealthReport,
    groups: Seq<ApplicationGroupInfo>,
    resources: ResourceSnapshotView,
    drives: Seq<DriveInfo>,
    config: HealthConfig,
) -> bool {
    &&& r.applications@.len() == groups.len()
    &&& forall|i: int|
        0 <= i < groups.len() ==> (#[trigger] r.applications@[i])@ == (ApplicationGroupInfoView {
            status: status_of(groups[i]@, config),
            ..groups[i]@
        })
    &&& r.system.memory_load_percent == resources.memory_load_percent
    &&& r.system.total_memory_bytes == resources.total_memory_bytes
    &&& r.system.available_memory_bytes == resources.available_memory_bytes
    &&& r.system.memory_pressure == under_pressure(resources, config)
    &&& r.system.drives@.len() == drives.len()
    &&& forall|i: int|
        0 <= i < drives.len() ==> tells_of(#[trigger] r.system.drives@[i], drives[i]@, config)
    &&& is_ranking(
        issue_views(r.issues@),
        found_issues(group_views(groups), resources, drive_views(drives), config),
    )
}

/// Puts issues into the order of their rank.
pub fn rank_issues(issues: &Vec<HealthIssue>) -> (r: Vec<HealthIssue>)
    ensures
        is_ranking(issue_views(r@), issue_views(issues@)),
{
    let mut keys: Vec<Vec<u64>> = Vec::new();
    let mut i: usize = 0;
    while i < issues.len()
        invariant
            i <= issues@.len(),
            keys@.len() == i,
            forall|k: int| 0 <= k < i ==> (#[trigger] keys@[k])@ == issue_key(issues@[k]@),
        decreases issues@.len() - i,
    {
        let first: u64 = 255 - issues[i].score as u64;
        let mut key: Vec<u64> = vec![first];
        let mut rest = key_of_text(&issues[i].subject);
        key.append(&mut rest);
        assert(key@ =~= issue_key(issues@[i as int]@));
        keys.push(key);
        i = i + 1;
    }
    assert(keys_view(keys@) =~= issue_keys(issue_views(issues@)));
    let order = stable_order(&keys);
    let mut out: Vec<HealthIssue> = Vec::new();
    let mut j: usize = 0;
    while j < order.len()
        invariant
            is_stable_order(issue_keys(issue_views(issues@)), order@),
            order@.len() == issues@.len(),
            j <= order@.len(),
            out@.len() == j,
            forall|k: int| 0 <= k < j ==> (#[trigger] out@[k])@ == issues@[order@[k] as int]@,
        decreases order@.len() - j,
    {
        assert(order@[j as int] < issue_keys(issue_views(issues@)).len());
        out.push(issues[order[j]].clone());
        j = j + 1;
    }
    proof {
        let ranked = issue_views(out@);
        let found = issue_views(issues@);
        assert forall|k: int| 0 <= k < ranked.len() implies #[trigger] ranked[k]
            == found[order@[k] as int] by {
            assert(order@[k] < issue_keys(found).len());
        }
        assert(ranks_by(ranked, found, order@));
    }
    out
}

fn status_for(high_cpu: bool, high_memory: bool) -> (r: &'static str)
    ensures
        r@ == (if high_cpu && high_memory {
            "high_cpu_and_memory"@
        } else if high_cpu {
            "high_cpu"@
        } else if high_memory {
            "high_memory"@
        } else {
            "normal"@
        }),
{
    if high_cpu && high_memory {
        "high_cpu_and_memory"
    } else if high_cpu {
        "high_cpu"
    } else if high_memory {
        "high_memory"
    } else {
        "normal"
    }
}

fn judge_groups(
    groups: &Vec<ApplicationGroupInfo>,
    total_memory_bytes: Option<u64>,
    config: &HealthConfig,
) -> (r: (Vec<ApplicationGroupInfo>, Vec<HealthIssue>))
    ensures
        r.0@.len() == groups@.len(),
        forall|i: int|
            0 <= i < groups@.len() ==> (#[trigger] r.0@[i])@ == (ApplicationGroupInfoView {
                status: status_of(groups@[i]@, *config),
                ..groups@[i]@
            }),
        issue_views(r.1@) == application_issues(
            group_views(groups@),
            total_memory_bytes,
            *config,
        ),
{
    let ghost all = group_views(groups@);
    let mut out: Vec<ApplicationGroupInfo> = Vec::new();
    let mut issues: Vec<HealthIssue> = Vec::new();
    let mut i: usize = 0;
    proof {
        assert(all.take(0).len() == 0);
        assert(issue_views(issues@) =~= Seq::<IssueView>::empty());
    }
    while i < groups.len()
        invariant
            all == group_views(groups@),
            i <= groups@.len(),
            out@.len() == i,
            forall|k: int|
                0 <= k < i ==> (#[trigger] out@[k])@ == (ApplicationGroupInfoView {
                    status: status_of(groups@[k]@, *config),
                    ..groups@[k]@
                }),
            issue_views(issues@) == application_issues(
                all.take(i as int),
                total_memory_bytes,
                *config,
            ),
        decreases groups@.len() - i,
    {
        let g = &groups[i];
        let ghost before = issue_views(issues@);
        let busy = match g.cpu_percent {
            Some(c) => is_at_least(c, config.high_cpu_percent),
            None => false,
        };
        let large = g.total_working_set_bytes >= config.high_memory_bytes;
        if busy {
            let cpu = match g.cpu_percent {
                Some(c) => c,
                None => Real { bits: 0 },
            };
            let score = app_cpu_score(cpu);
            issues.push(
                HealthIssue {
                    layer: "application",
                    subject: g.display_name.clone(),
                    kind: "high_cpu",
                    value: Amount::CpuPercent(cpu),
                    threshold: Amount::CpuPercent(config.high_cpu_percent),
                    score,
                    category: "app_cpu",
                    severity: severity(score),
                },
            );
            assert(issue_views(issues@) =~= before.push(cpu_issue(g@, *config)));
        }
        let ghost between = issue_views(issues@);
        if large {
            let score = app_memory_score(g.total_working_set_bytes, total_memory_bytes);
            issues.push(
                HealthIssue {
                    layer: "application",
                    subject: g.display_name.clone(),
                    kind: "high_memory",
                    value: Amount::Megabytes(g.total_working_set_bytes / 1048576),
                    threshold: Amount::Megabytes(config.high_memory_bytes / 1048576),
                    score,
                    category: "app_memory",
                    severity: severity(score),
                },
            );
            assert(issue_views(issues@) =~= between.push(
                memory_issue(g@, total_memory_bytes, *config),
            ));
        }
        let mut judged = g.clone();
        judged.status = status_for(busy, large).to_string();
        out.push(judged);
        proof {
            assert(all.take(i + 1).drop_last() =~= all.take(i as int));
            assert(all.take(i + 1).last() == g@);
            assert(issue_views(issues@) =~= before + group_issues(
                g@,
                total_memory_bytes,
                *config,
            ));
        }
        i = i + 1;
    }
    assert(all.take(all.len() as int) =~= all);
    (out, issues)
}

fn judge_drives(drives: &Vec<DriveInfo>, config: &HealthConfig) -> (r: (
    Vec<DriveHealth>,
    Vec<HealthIssue>,
))
    ensures
        r.0@.len() == drives@.len(),
        forall|i: int|
            0 <= i < drives@.len() ==> tells_of(#[trigger] r.0@[i], drives@[i]@, *config),
        issue_views(r.1@) == drive_issues(drive_views(drives@), *config),
{
    let ghost all = drive_views(drives@);
    let mut out: Vec<DriveHealth> = Vec::new();
    let mut issues: Vec<HealthIssue> = Vec::new();
    let mut i: usize = 0;
    proof {
        assert(all.take(0).len() == 0);
        assert(issue_views(issues@) =~= Seq::<IssueView>::empty());
    }
    while i < drives.len()
        invariant
            all == drive_views(drives@),
            i <= drives@.len(),
            out@.len() == i,
            forall|k: int| 0 <= k < i ==> tells_of(#[trigger] out@[k], drives@[k]@, *config),
            issue_views(issues@) == drive_issues(all.take(i as int), *config),
        decreases drives@.len() - i,
    {
        let d = &drives[i];
        let ghost before = issue_views(issues@);
        proof {
            assert(all.take(i + 1).drop_last() =~= all.take(i as int));
            assert(all.take(i + 1).last() == d@);
        }
        let low = match d.free_bytes {
            Some(f) => f <= config.low_disk_free_bytes,
            None => false,
        };
        if low {
            let free: u64 = d.free_bytes.unwrap_or(0);
            let score = storage_score(d.free_bytes, d.total_bytes);
            issues.push(
                HealthIssue {
                    layer: "system",
                    subject: drive_label(&d.root),
                    kind: "low_disk_space",
                    value: Amount::FreeBytes(free),
                    threshold: Amount::FreeBytes(config.low_disk_free_bytes),
                    score,
                    category: "storage",
                    severity: severity(score),
                },
            );
            assert(issue_views(issues@) =~= before.push(drive_issue(d@, *config)));
        }
        out.push(
            DriveHealth {
                drive: drive_label(&d.root),
                total_bytes: d.total_bytes,
                free_bytes: d.free_bytes,
                low_disk_space: low,
            },
        );
        i = i + 1;
    }
    assert(all.take(all.len() as int) =~= all);
    (out, issues)
}

/// What holding the measurements against the thresholds gives.
pub struct Judgement {
    pub applications: Vec<ApplicationGroupInfo>,
    pub drives: Vec<DriveHealth>,
    pub memory_pressure: bool,
    /// What is over its threshold, as it is found.
    pub issues: Vec<HealthIssue>,
}

/// Holds the measurements against the thresholds.
pub fn judge(
    groups: &Vec<ApplicationGroupInfo>,
    resources: &ResourceSnapshot,
    drives: &Vec<DriveInfo>,
    config: &HealthConfig,
) -> (r: Judgement)
    ensures
        r.applications@.len() == groups@.len(),
        forall|i: int|
            0 <= i < groups@.len() ==> (#[trigger] r.applications@[i])@ == (
            ApplicationGroupInfoView {
                status: status_of(groups@[i]@, *config),
                ..groups@[i]@
            }),
        r.drives@.len() == drives@.len(),
        forall|i: int|
            0 <= i < drives@.len() ==> tells_of(#[trigger] r.drives@[i], drives@[i]@, *config),
        r.memory_pressure == under_pressure(resources@, *config),
        issue_views(r.issues@) == found_issues(
            group_views(groups@),
            resources@,
            drive_views(drives@),
            *config,
        ),
{
    let (applications, mut issues) = judge_groups(groups, resources.total_memory_bytes, config);
    let (drive_health, mut drive_found) = judge_drives(drives, config);
    let ghost from_groups = issues@;
    let ghost from_drives = drive_found@;
    issues.append(&mut drive_found);
    assert(issue_views(issues@) =~= issue_views(from_groups) + issue_views(from_drives));
    let ghost before = issue_views(issues@);
    let pressure = match resources.memory_load_percent {
        Some(load) => is_at_least(load, config.high_memory_load_percent),
        None => false,
    };
    if pressure {
        let load = match resources.memory_load_percent {
            Some(l) => l,
            None => Real { bits: 0 },
        };
        let score = memory_pressure_score(
            load,
            resources.available_memory_bytes,
            resources.total_memory_bytes,
        );
        issues.push(
            HealthIssue {
                layer: "system",
                subject: "memory".to_string(),
                kind: "memory_pressure",
                value: Amount::LoadPercent(load),
                threshold: Amount::LoadPercent(config.high_memory_load_percent),
                score,
                category: "memory_pressure",
                severity: severity(score),
            },
        );
        assert(issue_views(issues@) =~= before.push(pressure_issue(resources@, *config)));
    }
    Judgement { applications, drives: drive_health, memory_pressure: pressure, issues }
}

/// Holds the measurements against the thresholds, and ranks what is over them.
pub fn build_health_report(
    groups: Vec<ApplicationGroupInfo>,
    resources: &ResourceSnapshot,
    drives: &Vec<DriveInfo>,
    config: &HealthConfig,
) -> (r: SystemHealthReport)
    ensures
        reports_health(r, groups@, resources@, drives@, *config),
{
    let judged = judge(&groups, resources, drives, config);
    let ranked = rank_issues(&judged.issues);
    SystemHealthReport {
        applications: judged.applications,
        system: SystemHealth {
            memory_load_percent: resources.memory_load_percent,
            total_memory_bytes: resources.total_memory_bytes,
            available_memory_bytes: resources.available_memory_bytes,
            memory_pressure: judged.memory_pressure,
            drives: judged.drives,
        },
        issues: ranked,
    }
}

/// In a ranking no issue follows one with a lower score.
pub proof fn law_ranking_descends(ranked: Seq<IssueView>, found: Seq<IssueView>, i: int, j: int)
    requires
        is_ranking(ranked, found),
        0 <= i < j < ranked.len(),
    ensures
        ranked[i].score >= ranked[j].score,
{
    reveal_with_fuel(crate::order::key_lt, 2);
    let keys = issue_keys(found);
    let order = choose|order: Seq<usize>| #[trigger]
        is_stable_order(keys, order) && ranks_by(ranked, found, order);
    let a = order[i] as int;
    let b = order[j] as int;
    assert(comes_before(keys, a, b));
    assert(ranked[i] == found[a] && ranked[j] == found[b]);
    assert(keys[a][0] == 255 - found[a].score);
    assert(keys[b][0] == 255 - found[b].score);
}

/// A machine on which nothing is over its threshold has no issues.
pub proof fn law_quiet_machine_has_no_issues(
    groups: Seq<ApplicationGroupInfoView>,
    resources: ResourceSnapshotView,
    drives: Seq<DriveInfoView>,
    config: HealthConfig,
)
    requires
        forall|i: int|
            0 <= i < groups.len() ==> !high_cpu(#[trigger] groups[i], config) && !high_memory(
                groups[i],
                config,
            ),
        forall|i: int| 0 <= i < drives.len() ==> !low_space(#[trigger] drives[i], config),
        !under_pressure(resources, config),
    ensures
        found_issues(groups, resources, drives, config).len() == 0,
{
    lemma_quiet_groups(groups, resources.total_memory_bytes, config);
    lemma_quiet_drives(drives, config);
}

proof fn lemma_quiet_groups(
    groups: Seq<ApplicationGroupInfoView>,
    total: Option<u64>,
    config: HealthConfig,
)
    requires
        forall|i: int|
            0 <= i < groups.len() ==> !high_cpu(#[trigger] groups[i], config) && !high_memory(
                groups[i],
                config,
            ),
    ensures
        application_issues(groups, total, config).len() == 0,
    decreases groups.len(),
{
    if groups.len() > 0 {
        let rest = groups.drop_last();
        assert forall|i: int| 0 <= i < rest.len() implies !high_cpu(#[trigger] rest[i], config)
            && !high_memory(rest[i], config) by {
            assert(rest[i] == groups[i]);
        }
        lemma_quiet_groups(rest, total, config);
        assert(groups.last() == groups[groups.len() - 1]);
    }
}

proof fn lemma_quiet_drives(drives: Seq<DriveInfoView>, config: HealthConfig)
    requires
        forall|i: int| 0 <= i < drives.len() ==> !low_space(#[trigger] drives[i], config),
    ensures
        drive_issues(drives, config).len() == 0,
    decreases drives.len(),
{
    if drives.len() > 0 {
        let rest = drives.drop_last();
        assert forall|i: int| 0 <= i < rest.len() implies !low_space(#[trigger] rest[i], config) by {
            assert(rest[i] == drives[i]);
        }
        lemma_quiet_drives(rest, config);
        assert(drives.last() == drives[drives.len() - 1]);
    }
}

/// Is `r` the health report on what the machine answers? The first answer that
/// is an error is handed on.
pub open spec fn answers_health<B: WindowsBackend>(
    r: Result<SystemHealthReport, WinkitError>,
    backend: &B,
    limit: usize,
    config: HealthConfig,
) -> bool {
    exists|groups: Result<Vec<ApplicationGroupInfo>, WinkitError>| #[trigger]
        call_ensures(B::application_groups, (backend, limit), groups) && (match groups {
            Err(e) => r == Err::<SystemHealthReport, WinkitError>(e),
            Ok(g) => exists|resources: Result<ResourceSnapshot, WinkitError>| #[trigger]
                call_ensures(B::resource_snapshot, (backend, 1000u64), resources) && (
                match resources {
                    Err(e) => r == Err::<SystemHealthReport, WinkitError>(e),
                    Ok(s) => exists|drives: Result<Vec<DriveInfo>, WinkitError>| #[trigger]
                        call_ensures(B::list_drives, (backend,), drives) && (match drives {
                            Err(e) => r == Err::<SystemHealthReport, WinkitError>(e),
                            Ok(d) => r matches Ok(report) && reports_health(
                                report,
                                g@,
                                s@,
                                d@,
                                config,
                            ),
                        }),
                }),
        })
}

/// The health report on the machine.
pub fn system_health_handler<B: WindowsBackend>(
    backend: &B,
    args: &Json,
    config: &HealthConfig,
) -> (r: Result<SystemHealthReport, WinkitError>)
    requires
        usize_at(args@, "limit"@) is Some ==> config.max_groups >= 1,
    ensures
        answers_health(r, backend, limit_for(usize_at(args@, "limit"@), config.max_groups), *config),
{
    let limit = clamp_limit(optional_usize(args, "limit"), config.max_groups);
    let groups = match backend.application_groups(limit) {
        Ok(g) => g,
        Err(e) => {
            return Err(e);
        },
    };
    let resources = match backend.resource_snapshot(1000) {
        Ok(s) => s,
        Err(e) => {
            return Err(e);
        },
    };
    let drives = match backend.list_drives() {
        Ok(d) => d,
        Err(e) => {
            return Err(e);
        },
    };
    Ok(build_health_report(groups, &resources, &drives, config))
}

/// What the tool `system_health` does, in words.
pub const SYSTEM_HEALTH_ABOUT: &'static str = "Machine-wide health summary: running applications grouped by executable with aggregate memory and CPU (sampled), system memory pressure, and disk space — with explicit threshold-based issues ranked by a deterministic score. Use it to answer 'what is currently unhealthy on this machine' in one call.";

/// The parameters of the tool `system_health`.
pub open spec fn system_health_params() -> Seq<ParamView> {
    seq![
        ParamView::new("limit"@, ParamKind::Integer)
            .about("Maximum application groups to return, by total working set (default and cap come from configuration)."@),
    ]
}

/// The tool `system_health`.
pub open spec fn system_health_tool() -> ToolView {
    ToolView {
        name: "system_health"@,
        description: SYSTEM_HEALTH_ABOUT@,
        input_schema: schema_view(system_health_params()),
        capability: Some(Capability::ProcessRead),
        timeout_ms: None,
    }
}

/// The tool `system_health`.
pub fn system_health_definition() -> (r: ToolDefinition)
    ensures
        r@ == system_health_tool(),
{
    let params: Vec<Param> = vec![
        Param::new("limit", ParamKind::Integer)
            .about("Maximum application groups to return, by total working set (default and cap come from configuration)."),
    ];
    assert(param_views(params@) =~= system_health_params());
    ToolDefinition {
        name: "system_health",
        description: SYSTEM_HEALTH_ABOUT,
        input_schema: input_schema(&params),
        capability: Some(Capability::ProcessRead),
        timeout_ms: None,
    }
}

/// What the tool `system_diagnose` does, in words.
pub const SYSTEM_DIAGNOSE_ABOUT: &'static str = "Machine-wide diagnosis: gathers application, storage, memory, memory-growth, thermal, storage-health, battery, and Wi-Fi evidence, applies deterministic threshold rules, and returns ranked findings with explicit scores plus a 'checked clean' list of dimensions that were measured and found healthy. Use it to answer 'why is my computer unhealthy' — findings are evidence-backed hypotheses, not root-cause claims.";

/// The parameters of the tool `system_diagnose`.
pub open spec fn system_diagnose_params() -> Seq<ParamView> {
    seq![
        ParamView::new("limit"@, ParamKind::Integer)
            .about("Maximum application groups to consider, by total working set (default and cap come from configuration)."@),
    ]
}

/// The tool `system_diagnose`.
pub open spec fn system_diagnose_tool() -> ToolView {
    ToolView {
        name: "system_diagnose"@,
        description: SYSTEM_DIAGNOSE_ABOUT@,
        input_schema: schema_view(system_diagnose_params()),
        capability: Some(Capability::ProcessRead),
        timeout_ms: None,
    }
}

/// The tool `system_diagnose`.
pub fn system_diagnose_definition() -> (r: ToolDefinition)
    ensures
        r@ == system_diagnose_tool(),
{
    let params: Vec<Param> = vec![
        Param::new("limit", ParamKind::Integer)
            .about("Maximum application groups to consider, by total working set (default and cap come from configuration)."),
    ];
    assert(param_views(params@) =~= system_diagnose_params());
    ToolDefinition {
        name: "system_diagnose",
        description: SYSTEM_DIAGNOSE_ABOUT,
        input_schema: input_schema(&params),
        capability: Some(Capability::ProcessRead),
        timeout_ms: None,
    }
}

/// Is among the issues one of this kind for this subject, with this value?
pub open spec fn tells_issue(
    issues: Seq<HealthIssue>,
    kind: Seq<char>,
    subject: Seq<char>,
    value: Amount,
    threshold: Amount,
) -> bool {
    exists|k: int|
        0 <= k < issues.len() && (#[trigger] issues[k]).kind@ == kind && issues[k].subject@
            == subject && issues[k].value == value && issues[k].threshold == threshold
}

/// Every application that keeps the processor busy gets an issue, whatever memory
/// it takes; every application that takes up much memory gets one, however busy it
/// is; so does every volume with little space left, and a memory under pressure.
pub proof fn law_what_is_over_its_threshold_is_told(
    groups: Vec<ApplicationGroupInfo>,
    resources: ResourceSnapshot,
    drives: Vec<DriveInfo>,
    config: HealthConfig,
    r: SystemHealthReport,
)
    requires
        call_ensures(build_health_report, (groups, &resources, &drives, &config), r),
    ensures
        forall|i: int|
            0 <= i < groups@.len() && (#[trigger] groups@[i]).cpu_percent is Some && at_least(
                groups@[i].cpu_percent->0,
                config.high_cpu_percent,
            ) ==> tells_issue(
                r.issues@,
                "high_cpu"@,
                groups@[i].display_name@,
                Amount::CpuPercent(groups@[i].cpu_percent->0),
                Amount::CpuPercent(config.high_cpu_percent),
            ),
        forall|i: int|
            0 <= i < groups@.len() && (#[trigger] groups@[i]).total_working_set_bytes
                >= config.high_memory_bytes ==> tells_issue(
                r.issues@,
                "high_memory"@,
                groups@[i].display_name@,
                Amount::Megabytes((groups@[i].total_working_set_bytes / 1048576) as u64),
                Amount::Megabytes((config.high_memory_bytes / 1048576) as u64),
            ),
        forall|i: int|
            0 <= i < drives@.len() && (#[trigger] drives@[i]).free_bytes is Some
                && drives@[i].free_bytes->0 <= config.low_disk_free_bytes ==> tells_issue(
                r.issues@,
                "low_disk_space"@,
                label_of(drives@[i].root@),
                Amount::FreeBytes(drives@[i].free_bytes->0),
                Amount::FreeBytes(config.low_disk_free_bytes),
            ),
        resources.memory_load_percent is Some && at_least(
            resources.memory_load_percent->0,
            config.high_memory_load_percent,
        ) ==> tells_issue(
            r.issues@,
            "memory_pressure"@,
            "memory"@,
            Amount::LoadPercent(resources.memory_load_percent->0),
            Amount::LoadPercent(config.high_memory_load_percent),
        ),
{
    let gs = group_views(groups@);
    let ds = drive_views(drives@);
    let total = resources.total_memory_bytes;
    let found = found_issues(gs, resources@, ds, config);
    let ranked = issue_views(r.issues@);
    let of_groups = application_issues(gs, total, config);
    let of_drives = drive_issues(ds, config);
    assert forall|i: int|
        0 <= i < groups@.len() && (#[trigger] groups@[i]).cpu_percent is Some && at_least(
            groups@[i].cpu_percent->0,
            config.high_cpu_percent,
        ) implies tells_issue(
        r.issues@,
        "high_cpu"@,
        groups@[i].display_name@,
        Amount::CpuPercent(groups@[i].cpu_percent->0),
        Amount::CpuPercent(config.high_cpu_percent),
    ) by {
        assert(gs[i] == groups@[i]@);
        assert(group_issues(gs[i], total, config)[0] == cpu_issue(gs[i], config));
        let at = lemma_group_issues_found(gs, total, config, i, cpu_issue(gs[i], config));
        assert(found[at] == of_groups[at]);
        let k = lemma_ranked_somewhere(ranked, found, at);
        assert(ranked[k] == r.issues@[k]@);
    }
    assert forall|i: int|
        0 <= i < groups@.len() && (#[trigger] groups@[i]).total_working_set_bytes
            >= config.high_memory_bytes implies tells_issue(
        r.issues@,
        "high_memory"@,
        groups@[i].display_name@,
        Amount::Megabytes((groups@[i].total_working_set_bytes / 1048576) as u64),
        Amount::Megabytes((config.high_memory_bytes / 1048576) as u64),
    ) by {
        assert(gs[i] == groups@[i]@);
        let own = group_issues(gs[i], total, config);
        assert(own[own.len() - 1] == memory_issue(gs[i], total, config));
        let at = lemma_group_issues_found(gs, total, config, i, memory_issue(gs[i], total, config));
        assert(found[at] == of_groups[at]);
        let k = lemma_ranked_somewhere(ranked, found, at);
        assert(ranked[k] == r.issues@[k]@);
    }
    assert forall|i: int|
        0 <= i < drives@.len() && (#[trigger] drives@[i]).free_bytes is Some
            && drives@[i].free_bytes->0 <= config.low_disk_free_bytes implies tells_issue(
        r.issues@,
        "low_disk_space"@,
        label_of(drives@[i].root@),
        Amount::FreeBytes(drives@[i].free_bytes->0),
        Amount::FreeBytes(config.low_disk_free_bytes),
    ) by {
        assert(ds[i] == drives@[i]@);
        let at = lemma_drive_issue_found(ds, config, i);
        assert(found[of_groups.len() + at] == of_drives[at]);
        let k = lemma_ranked_somewhere(ranked, found, of_groups.len() + at);
        assert(ranked[k] == r.issues@[k]@);
    }
    if under_pressure(resources@, config) {
        let k = lemma_ranked_somewhere(ranked, found, found.len() - 1);
        assert(ranked[k] == r.issues@[k]@);
    }
}

/// A found issue stands somewhere in the ranking.
proof fn lemma_ranked_somewhere(ranked: Seq<IssueView>, found: Seq<IssueView>, at: int) -> (k: int)
    requires
        is_ranking(ranked, found),
        0 <= at < found.len(),
    ensures
        0 <= k < ranked.len(),
        ranked[k] == found[at],
{
    let order = choose|order: Seq<usize>| #[trigger]
        is_stable_order(issue_keys(found), order) && ranks_by(ranked, found, order);
    lemma_place_fits(issue_keys(found), order, at);
    assert(order.contains(at as usize));
    let k = choose|k: int| 0 <= k < order.len() && order[k] == at as usize;
    k
}

proof fn lemma_place_fits(keys: Seq<Seq<u64>>, order: Seq<usize>, at: int)
    requires
        is_stable_order(keys, order),
        0 <= at < keys.len(),
    ensures
        at <= usize::MAX,
{
    if at > usize::MAX {
        let n = usize::MAX as int + 1;
        assert forall|i: int, j: int| 0 <= i < j < order.len() implies order[i] != order[j] by {
            crate::order::lemma_key_irreflexive(keys[order[i] as int]);
            assert(comes_before(keys, order[i] as int, order[j] as int));
        }
        let ints = order.map_values(|x: usize| x as int);
        assert(ints.no_duplicates());
        ints.unique_seq_to_set();
        let bound = vstd::set_lib::set_int_range(0, n);
        vstd::set_lib::lemma_int_range(0, n);
        assert(ints.to_set().subset_of(bound));
        vstd::set_lib::lemma_len_subset(ints.to_set(), bound);
        assert(order.len() <= n);
        assert(keys.len() == order.len());
        assert(at < n);
    }
}

/// An issue of one application is among those of all.
proof fn lemma_group_issues_found(
    groups: Seq<ApplicationGroupInfoView>,
    total: Option<u64>,
    config: HealthConfig,
    i: int,
    issue: IssueView,
) -> (at: int)
    requires
        0 <= i < groups.len(),
        group_issues(groups[i], total, config).contains(issue),
    ensures
        0 <= at < application_issues(groups, total, config).len(),
        application_issues(groups, total, config)[at] == issue,
    decreases groups.len(),
{
    let before = application_issues(groups.drop_last(), total, config);
    if i == groups.len() - 1 {
        let own = group_issues(groups[i], total, config);
        let k = choose|k: int| 0 <= k < own.len() && own[k] == issue;
        before.len() + k
    } else {
        assert(groups.drop_last()[i] == groups[i]);
        lemma_group_issues_found(groups.drop_last(), total, config, i, issue)
    }
}

/// The issue of one volume is among those of all.
proof fn lemma_drive_issue_found(
    drives: Seq<DriveInfoView>,
    config: HealthConfig,
    i: int,
) -> (at: int)
    requires
        0 <= i < drives.len(),
        low_space(drives[i], config),
    ensures
        0 <= at < drive_issues(drives, config).len(),
        drive_issues(drives, config)[at] == drive_issue(drives[i], config),
    decreases drives.len(),
{
    if i == drives.len() - 1 {
        drive_issues(drives, config).len() - 1
    } else {
        assert(drives.drop_last()[i] == drives[i]);
        lemma_drive_issue_found(drives.drop_last(), config, i)
    }
}

/// There are as many issues as there are things over their thresholds: one for
/// each busy application, one for each that takes up much memory, one for each
/// volume with little space left, and one for a memory under pressure.
pub proof fn law_one_issue_for_each_excess(
    groups: Vec<ApplicationGroupInfo>,
    resources: ResourceSnapshot,
    drives: Vec<DriveInfo>,
    config: HealthConfig,
    r: SystemHealthReport,
)
    requires
        call_ensures(build_health_report, (groups, &resources, &drives, &config), r),
    ensures
        r.issues@.len() == group_views(groups@).filter(
            |g: ApplicationGroupInfoView|
                g.cpu_percent is Some && at_least(g.cpu_percent->0, config.high_cpu_percent),
        ).len() + group_views(groups@).filter(
            |g: ApplicationGroupInfoView| g.total_working_set_bytes >= config.high_memory_bytes,
        ).len() + drive_views(drives@).filter(
            |d: DriveInfoView|
                d.free_bytes is Some && d.free_bytes->0 <= config.low_disk_free_bytes,
        ).len() + (if resources.memory_load_percent is Some && at_least(
            resources.memory_load_percent->0,
            config.high_memory_load_percent,
        ) {
            1nat
        } else {
            0nat
        }),
{
    lemma_group_issue_count(group_views(groups@), resources.total_memory_bytes, config);
    lemma_drive_issue_count(drive_views(drives@), config);
    assert(issue_views(r.issues@).len() == r.issues@.len());
}

proof fn lemma_group_issue_count(
    groups: Seq<ApplicationGroupInfoView>,
    total: Option<u64>,
    config: HealthConfig,
)
    ensures
        application_issues(groups, total, config).len() == groups.filter(
            |g: ApplicationGroupInfoView|
                g.cpu_percent is Some && at_least(g.cpu_percent->0, config.high_cpu_percent),
        ).len() + groups.filter(
            |g: ApplicationGroupInfoView| g.total_working_set_bytes >= config.high_memory_bytes,
        ).len(),
    decreases groups.len(),
{
    reveal(Seq::filter);
    if groups.len() > 0 {
        lemma_group_issue_count(groups.drop_last(), total, config);
    }
}

proof fn lemma_drive_issue_count(drives: Seq<DriveInfoView>, config: HealthConfig)
    ensures
        drive_issues(drives, config).len() == drives.filter(
            |d: DriveInfoView|
                d.free_bytes is Some && d.free_bytes->0 <= config.low_disk_free_bytes,
        ).len(),
    decreases drives.len(),
{
    reveal(Seq::filter);
    if drives.len() > 0 {
        lemma_drive_issue_count(drives.drop_last(), config);
    }
}

/// What an application is found to be rests on two separate questions: busy by
/// its share of the processor alone, large by its working set alone. All else of
/// it is told as it was measured, and so are the volumes and the memory.
pub proof fn law_busy_and_large_are_judged_apart(
    groups: Vec<ApplicationGroupInfo>,
    resources: ResourceSnapshot,
    drives: Vec<DriveInfo>,
    config: HealthConfig,
    r: SystemHealthReport,
    i: int,
)
    requires
        call_ensures(build_health_report, (groups, &resources, &drives, &config), r),
        0 <= i < groups@.len(),
    ensures
        r.applications@.len() == groups@.len(),
        r.applications@[i].name@ == groups@[i].name@,
        r.applications@[i].display_name@ == groups@[i].display_name@,
        r.applications@[i].cpu_percent == groups@[i].cpu_percent,
        r.applications@[i].total_working_set_bytes == groups@[i].total_working_set_bytes,
        r.applications@[i].process_count == groups@[i].process_count,
        (r.applications@[i].status@ == "high_cpu"@ || r.applications@[i].status@
            == "high_cpu_and_memory"@) <==> (groups@[i].cpu_percent is Some && at_least(
            groups@[i].cpu_percent->0,
            config.high_cpu_percent,
        )),
        (r.applications@[i].status@ == "high_memory"@ || r.applications@[i].status@
            == "high_cpu_and_memory"@) <==> groups@[i].total_working_set_bytes
            >= config.high_memory_bytes,
        r.applications@[i].status@ == "normal"@ || r.applications@[i].status@ == "high_cpu"@
            || r.applications@[i].status@ == "high_memory"@ || r.applications@[i].status@
            == "high_cpu_and_memory"@,
{
    reveal_strlit("high_cpu");
    assert("high_cpu"@.len() == 8);
    reveal_strlit("high_cpu_and_memory");
    assert("high_cpu_and_memory"@.len() == 19);
    reveal_strlit("high_memory");
    assert("high_memory"@.len() == 11);
    reveal_strlit("normal");
    assert("normal"@.len() == 6);
    assert(r.applications@[i]@.status == status_of(groups@[i]@, config));
}

/// The volumes and the memory are told as they were measured, each volume with
/// whether its space runs out: at most as much is free as the threshold says.
pub proof fn law_volumes_are_told(
    groups: Vec<ApplicationGroupInfo>,
    resources: ResourceSnapshot,
    drives: Vec<DriveInfo>,
    config: HealthConfig,
    r: SystemHealthReport,
)
    requires
        call_ensures(build_health_report, (groups, &resources, &drives, &config), r),
    ensures
        r.system.memory_load_percent == resources.memory_load_percent,
        r.system.total_memory_bytes == resources.total_memory_bytes,
        r.system.available_memory_bytes == resources.available_memory_bytes,
        r.system.memory_pressure <==> resources.memory_load_percent is Some && at_least(
            resources.memory_load_percent->0,
            config.high_memory_load_percent,
        ),
        r.system.drives@.len() == drives@.len(),
        forall|i: int|
            0 <= i < drives@.len() ==> {
                let d = #[trigger] r.system.drives@[i];
                &&& d.free_bytes == drives@[i].free_bytes
                &&& d.total_bytes == drives@[i].total_bytes
                &&& d.low_disk_space <==> drives@[i].free_bytes is Some
                    && drives@[i].free_bytes->0 <= config.low_disk_free_bytes
                &&& d.drive@.is_prefix_of(drives@[i].root@)
                &&& d.drive@.len() > 0 ==> d.drive@.last() != '\\' && d.drive@.last() != '/'
                &&& forall|k: int|
                    d.drive@.len() <= k < drives@[i].root@.len() ==> #[trigger] drives@[i].root@[k]
                        == '\\' || drives@[i].root@[k] == '/'
            },
{
    assert forall|i: int| 0 <= i < drives@.len() implies {
        let d = #[trigger] r.system.drives@[i];
        &&& d.free_bytes == drives@[i].free_bytes
        &&& d.total_bytes == drives@[i].total_bytes
        &&& d.low_disk_space <==> drives@[i].free_bytes is Some && drives@[i].free_bytes->0
            <= config.low_disk_free_bytes
        &&& d.drive@.is_prefix_of(drives@[i].root@)
        &&& d.drive@.len() > 0 ==> d.drive@.last() != '\\' && d.drive@.last() != '/'
        &&& forall|k: int|
            d.drive@.len() <= k < drives@[i].root@.len() ==> #[trigger] drives@[i].root@[k] == '\\'
                || drives@[i].root@[k] == '/'
    } by {
        assert(tells_of(r.system.drives@[i], drives@[i]@, config));
        lemma_label(drives@[i].root@);
    }
}

proof fn lemma_label(root: Seq<char>)
    ensures
        label_of(root).is_prefix_of(root),
        label_of(root).len() > 0 ==> label_of(root).last() != '\\' && label_of(root).last() != '/',
        forall|k: int|
            label_of(root).len() <= k < root.len() ==> #[trigger] root[k] == '\\' || root[k] == '/',
    decreases root.len(),
{
    if root.len() > 0 && (root.last() == '\\' || root.last() == '/') {
        let rest = root.drop_last();
        lemma_label(rest);
        assert forall|k: int| label_of(root).len() <= k < root.len() implies #[trigger] root[k]
            == '\\' || root[k] == '/' by {
            if k < rest.len() {
                assert(rest[k] == root[k]);
            }
        }
    }
}

/// Issues are told the worst first, and of two that are equally bad the one whose
/// subject comes first in the order of texts.
pub proof fn law_worst_issue_comes_first(
    groups: Vec<ApplicationGroupInfo>,
    resources: ResourceSnapshot,
    drives: Vec<DriveInfo>,
    config: HealthConfig,
    r: SystemHealthReport,
    i: int,
    j: int,
)
    requires
        call_ensures(build_health_report, (groups, &resources, &drives, &config), r),
        0 <= i < j < r.issues@.len(),
    ensures
        r.issues@[i].score >= r.issues@[j].score,
        r.issues@[i].score == r.issues@[j].score ==> !crate::order::text_lt(
            r.issues@[j].subject@,
            r.issues@[i].subject@,
        ),
{
    let ranked = issue_views(r.issues@);
    let found = found_issues(group_views(groups@), resources@, drive_views(drives@), config);
    law_ranking_descends(ranked, found, i, j);
    reveal_with_fuel(crate::order::key_lt, 2);
    let keys = issue_keys(found);
    let order = choose|order: Seq<usize>| #[trigger]
        is_stable_order(keys, order) && ranks_by(ranked, found, order);
    let a = order[i] as int;
    let b = order[j] as int;
    assert(comes_before(keys, a, b));
    assert(ranked[i] == found[a] && ranked[j] == found[b]);
    assert(ranked[i] == r.issues@[i]@ && ranked[j] == r.issues@[j]@);
    if r.issues@[i].score == r.issues@[j].score {
        let x = text_key(found[a].subject);
        let y = text_key(found[b].subject);
        assert(keys[a].drop_first() =~= x);
        assert(keys[b].drop_first() =~= y);
        if crate::order::key_lt(y, x) {
            if crate::order::key_lt(x, y) {
                crate::order::lemma_key_transitive(x, y, x);
            }
            crate::order::lemma_key_irreflexive(x);
        }
    }
}

/// Does an issue bear the layer and the category of its kind, and the severity of
/// its score?
pub open spec fn is_labelled(i: IssueView) -> bool {
    &&& (i.kind == "high_cpu"@ && i.layer == "application"@ && i.category == "app_cpu"@) || (i.kind
        == "high_memory"@ && i.layer == "application"@ && i.category == "app_memory"@) || (i.kind
        == "low_disk_space"@ && i.layer == "system"@ && i.category == "storage"@) || (i.kind
        == "memory_pressure"@ && i.layer == "system"@ && i.category == "memory_pressure"@)
    &&& i.score >= 80 ==> i.severity == "critical"@
    &&& 60 <= i.score < 80 ==> i.severity == "high"@
    &&& 40 <= i.score < 60 ==> i.severity == "medium"@
    &&& i.score < 40 ==> i.severity == "low"@
}

/// Every issue bears the layer and the category of its kind, and the severity of
/// its score: from 80 up critical, from 60 up high, from 40 up medium.
pub proof fn law_issues_are_labelled(
    groups: Vec<ApplicationGroupInfo>,
    resources: ResourceSnapshot,
    drives: Vec<DriveInfo>,
    config: HealthConfig,
    r: SystemHealthReport,
    k: int,
)
    requires
        call_ensures(build_health_report, (groups, &resources, &drives, &config), r),
        0 <= k < r.issues@.len(),
    ensures
        is_labelled(r.issues@[k]@),
{
    let gs = group_views(groups@);
    let ds = drive_views(drives@);
    lemma_groups_labelled(gs, resources.total_memory_bytes, config);
    lemma_drives_labelled(ds, config);
    let found = found_issues(gs, resources@, ds, config);
    let ranked = issue_views(r.issues@);
    let order = choose|order: Seq<usize>| #[trigger]
        is_stable_order(issue_keys(found), order) && ranks_by(ranked, found, order);
    assert(ranked[k] == found[order[k] as int]);
    assert(ranked[k] == r.issues@[k]@);
}

proof fn lemma_groups_labelled(
    groups: Seq<ApplicationGroupInfoView>,
    total: Option<u64>,
    config: HealthConfig,
)
    ensures
        forall|k: int|
            0 <= k < application_issues(groups, total, config).len() ==> is_labelled(
                #[trigger] application_issues(groups, total, config)[k],
            ),
    decreases groups.len(),
{
    if groups.len() > 0 {
        let before = application_issues(groups.drop_last(), total, config);
        let own = group_issues(groups.last(), total, config);
        lemma_groups_labelled(groups.drop_last(), total, config);
        assert forall|k: int|
            0 <= k < application_issues(groups, total, config).len() implies is_labelled(
            #[trigger] application_issues(groups, total, config)[k],
        ) by {
            if k < before.len() {
                assert(is_labelled(before[k]));
            } else {
                assert(application_issues(groups, total, config)[k] == own[k - before.len()]);
                assert(is_labelled(cpu_issue(groups.last(), config)));
                assert(is_labelled(memory_issue(groups.last(), total, config)));
            }
        }
    }
}

proof fn lemma_drives_labelled(drives: Seq<DriveInfoView>, config: HealthConfig)
    ensures
        forall|k: int|
            0 <= k < drive_issues(drives, config).len() ==> is_labelled(
                #[trigger] drive_issues(drives, config)[k],
            ),
    decreases drives.len(),
{
    if drives.len() > 0 {
        let before = drive_issues(drives.drop_last(), config);
        lemma_drives_labelled(drives.drop_last(), config);
        assert forall|k: int| 0 <= k < drive_issues(drives, config).len() implies is_labelled(
            #[trigger] drive_issues(drives, config)[k],
        ) by {
            if k < before.len() {
                assert(is_labelled(before[k]));
            } else {
                assert(is_labelled(drive_issue(drives.last(), config)));
            }
        }
    }
}

/// The health of the machine is told of what the backend gives: as many applications as
/// were asked for, the resources over a second, and the volumes.
pub proof fn law_health_is_of_what_the_backend_gives<B: WindowsBackend>(
    backend: B,
    args: Json,
    config: HealthConfig,
    r: Result<SystemHealthReport, WinkitError>,
)
    requires
        config.max_groups >= 1,
        call_ensures(system_health_handler::<B>, (&backend, &args, &config), r),
    ensures
        exists|limit: usize, groups: Result<Vec<ApplicationGroupInfo>, WinkitError>|
            {
                &&& #[trigger] call_ensures(B::application_groups, (&backend, limit), groups)
                &&& 1 <= limit <= config.max_groups
                &&& usize_at(args@, "limit"@) is None ==> limit == config.max_groups
                &&& usize_at(args@, "limit"@) is Some && 1 <= usize_at(args@, "limit"@)->0
                    <= config.max_groups ==> limit == usize_at(args@, "limit"@)->0
                &&& groups is Err ==> r is Err && r->Err_0 == groups->Err_0
                &&& r is Ok ==> groups is Ok && r->Ok_0.applications@.len()
                    == groups->Ok_0@.len()
            },
        r matches Ok(report) ==> exists|resources: Result<ResourceSnapshot, WinkitError>|
            {
                &&& #[trigger] call_ensures(B::resource_snapshot, (&backend, 1000u64), resources)
                &&& resources is Ok
                &&& report.system.memory_load_percent == resources->Ok_0.memory_load_percent
            },
        r matches Ok(report) ==> exists|drives: Result<Vec<DriveInfo>, WinkitError>|
            {
                &&& #[trigger] call_ensures(B::list_drives, (&backend,), drives)
                &&& drives is Ok
                &&& report.system.drives@.len() == drives->Ok_0@.len()
            },
{
    let limit = limit_for(usize_at(args@, "limit"@), config.max_groups);
    assert(answers_health(r, &backend, limit, config));
}

} // verus!
