//! What the hardware and the growth of memory say of the machine's condition.

use crate::diagnostics::{bounded, severity, severity_of};
use crate::floats::{at_least, is_at_least, whole, whole_part};
use crate::models::{
    Real, SystemBatteryEvidence, SystemBatteryEvidenceView, SystemDiagnosticData,
    SystemDiagnosticDataView, SystemStorageHealthEvidence, SystemStorageHealthEvidenceView,
    SystemThermalEvidence, SystemThermalEvidenceView, SystemWifiEvidence, SystemWifiEvidenceView,
};
use crate::text::same;
use crate::tools::health::{issue_views, Amount, HealthIssue, IssueView};
use vstd::prelude::*;
use vstd::string::*;

verus! {

/// How fast memory may be taken, in bytes per second.
pub const FAST_GROWTH_BYTES: i64 = 52_428_800;

/// The bits of ninety: how hot a processor may be, in degrees Celsius.
pub const HOT_CPU_BITS: u64 = 0x4056_8000_0000_0000;

/// How much of its life a device may have used, in percent.
pub const WORN_PERCENT: u32 = 90;

/// The bits of fifty: what must be left of a battery's capacity, in percent.
pub const WORN_BATTERY_BITS: u64 = 0x4049_0000_0000_0000;

/// The least signal of a wireless connection, in percent.
pub const WEAK_SIGNAL_PERCENT: u32 = 25;

/// The score of a processor that is held back.
pub const THROTTLED_SCORE: u8 = 70;

/// The score of a device that reports trouble.
pub const UNHEALTHY_SCORE: u8 = 90;

/// One condition that is over its threshold.
pub open spec fn condition(
    subject: Seq<char>,
    kind: Seq<char>,
    value: Amount,
    threshold: Amount,
    score: u8,
    category: Seq<char>,
) -> IssueView {
    IssueView {
        layer: "system"@,
        subject,
        kind,
        value,
        threshold,
        score,
        category,
        severity: severity_of(score),
    }
}

fn add_condition(
    issues: &mut Vec<HealthIssue>,
    subject: &str,
    kind: &'static str,
    value: Amount,
    threshold: Amount,
    score: u8,
    category: &'static str,
)
    ensures
        issue_views(final(issues)@) == issue_views(old(issues)@).push(
            condition(subject@, kind@, value, threshold, score, category@),
        ),
{
    let ghost before = issue_views(issues@);
    issues.push(
        HealthIssue {
            layer: "system",
            subject: subject.to_owned(),
            kind,
            value,
            threshold,
            score,
            category,
            severity: severity(score),
        },
    );
    assert(issue_views(issues@) =~= before.push(
        condition(subject@, kind@, value, threshold, score, category@),
    ));
}

fn bound(n: i64) -> (r: u8)
    ensures
        r == bounded(n as int),
{
    if n < 1 {
        1
    } else if n > 100 {
        100
    } else {
        n as u8
    }
}

/// Memory that is taken fast.
pub open spec fn growth_issues(rate: Option<i64>) -> Seq<IssueView> {
    match rate {
        Some(g) => if g >= FAST_GROWTH_BYTES {
            seq![
                condition(
                    "memory"@,
                    "memory_growth"@,
                    Amount::BytesPerSecond(g),
                    Amount::BytesPerSecond(FAST_GROWTH_BYTES),
                    bounded(g as int / 1048576),
                    "memory_growth"@,
                ),
            ]
        } else {
            Seq::empty()
        },
        None => Seq::empty(),
    }
}

fn judge_growth(rate: Option<i64>, issues: &mut Vec<HealthIssue>)
    ensures
        issue_views(final(issues)@) == issue_views(old(issues)@) + growth_issues(rate),
{
    let ghost before = issue_views(issues@);
    match rate {
        Some(g) => {
            if g >= FAST_GROWTH_BYTES {
                add_condition(
                    issues,
                    "memory",
                    "memory_growth",
                    Amount::BytesPerSecond(g),
                    Amount::BytesPerSecond(FAST_GROWTH_BYTES),
                    bound(g / 1048576),
                    "memory_growth",
                );
            }
        },
        None => {},
    }
    assert(issue_views(issues@) =~= before + growth_issues(rate));
}

/// Is the processor held back?
pub open spec fn is_throttled(t: SystemThermalEvidenceView) -> bool {
    t.cpu_throttling == "observed"@ || t.cpu_frequency_reduced == Some(true)
}

/// A processor that is hot.
pub open spec fn heat_issues(t: SystemThermalEvidenceView) -> Seq<IssueView> {
    let most = Real { bits: HOT_CPU_BITS };
    match t.cpu_temperature_c {
        Some(c) => if at_least(c, most) {
            seq![
                condition(
                    "cpu"@,
                    "cpu_temperature"@,
                    Amount::Celsius(c),
                    Amount::Celsius(most),
                    bounded(whole(c) as int),
                    "thermal"@,
                ),
            ]
        } else {
            Seq::empty()
        },
        None => Seq::empty(),
    }
}

/// A processor that is hot, or held back.
pub open spec fn thermal_issues(t: Option<SystemThermalEvidenceView>) -> Seq<IssueView> {
    match t {
        Some(t) => if is_throttled(t) {
            heat_issues(t).push(
                condition(
                    "cpu"@,
                    "cpu_throttling"@,
                    Amount::Seen(true),
                    Amount::Seen(true),
                    THROTTLED_SCORE,
                    "thermal"@,
                ),
            )
        } else {
            heat_issues(t)
        },
        None => Seq::empty(),
    }
}

/// The thermal evidence taken by its view.
pub open spec fn thermal_view(t: Option<SystemThermalEvidence>) -> Option<
    SystemThermalEvidenceView,
> {
    match t {
        Some(t) => Some(t@),
        None => None,
    }
}

fn judge_thermal(thermal: &Option<SystemThermalEvidence>, issues: &mut Vec<HealthIssue>)
    ensures
        issue_views(final(issues)@) == issue_views(old(issues)@) + thermal_issues(
            thermal_view(*thermal),
        ),
{
    let ghost before = issue_views(issues@);
    if let Some(t) = thermal {
        let most = Real { bits: HOT_CPU_BITS };
        if let Some(c) = t.cpu_temperature_c {
            if is_at_least(c, most) {
                let degrees: u64 = whole_part(c);
                let score: u8 = if degrees > 100 {
                    100
                } else {
                    bound(degrees as i64)
                };
                add_condition(
                    issues,
                    "cpu",
                    "cpu_temperature",
                    Amount::Celsius(c),
                    Amount::Celsius(most),
                    score,
                    "thermal",
                );
            }
        }
        assert(issue_views(issues@) =~= before + heat_issues(t@));
        let reduced = match t.cpu_frequency_reduced {
            Some(b) => b,
            None => false,
        };
        if same(&t.cpu_throttling, "observed") || reduced {
            add_condition(
                issues,
                "cpu",
                "cpu_throttling",
                Amount::Seen(true),
                Amount::Seen(true),
                THROTTLED_SCORE,
                "thermal",
            );
        }
    }
    assert(issue_views(issues@) =~= before + thermal_issues(thermal_view(*thermal)));
}

/// A device that has used up its life.
pub open spec fn wear_issues(d: SystemStorageHealthEvidenceView) -> Seq<IssueView> {
    match d.percentage_used {
        Some(p) => if p >= WORN_PERCENT {
            seq![
                condition(
                    d.device,
                    "storage_wear"@,
                    Amount::UsedPercent(p),
                    Amount::UsedPercent(WORN_PERCENT),
                    bounded(p as int),
                    "storage_health"@,
                ),
            ]
        } else {
            Seq::empty()
        },
        None => Seq::empty(),
    }
}

/// A device that has used up its life, or reports that it is not healthy.
pub open spec fn device_issues(d: SystemStorageHealthEvidenceView) -> Seq<IssueView> {
    if d.health_status is Some && d.health_status->0 != "healthy"@ {
        wear_issues(d).push(
            condition(
                d.device,
                "storage_unhealthy"@,
                Amount::Seen(true),
                Amount::Seen(true),
                UNHEALTHY_SCORE,
                "storage_health"@,
            ),
        )
    } else {
        wear_issues(d)
    }
}

/// What the devices report.
pub open spec fn storage_health_issues(devices: Seq<SystemStorageHealthEvidenceView>) -> Seq<
    IssueView,
>
    decreases devices.len(),
{
    if devices.len() == 0 {
        Seq::empty()
    } else {
        storage_health_issues(devices.drop_last()) + device_issues(devices.last())
    }
}

/// The devices taken by their views.
pub open spec fn device_views(devices: Seq<SystemStorageHealthEvidence>) -> Seq<
    SystemStorageHealthEvidenceView,
> {
    devices.map_values(|d: SystemStorageHealthEvidence| d@)
}

fn judge_devices(devices: &Vec<SystemStorageHealthEvidence>, issues: &mut Vec<HealthIssue>)
    ensures
        issue_views(final(issues)@) == issue_views(old(issues)@) + storage_health_issues(
            device_views(devices@),
        ),
{
    let ghost before = issue_views(issues@);
    let ghost all = device_views(devices@);
    let mut i: usize = 0;
    assert(all.take(0).len() == 0);
    assert(before + storage_health_issues(all.take(0)) =~= before);
    while i < devices.len()
        invariant
            all == device_views(devices@),
            i <= devices@.len(),
            issue_views(issues@) == before + storage_health_issues(all.take(i as int)),
        decreases devices@.len() - i,
    {
        let d = &devices[i];
        let ghost now = issue_views(issues@);
        proof {
            assert(all.take(i + 1).drop_last() =~= all.take(i as int));
            assert(all.take(i + 1).last() == d@);
        }
        if let Some(p) = d.percentage_used {
            if p >= WORN_PERCENT {
                add_condition(
                    issues,
                    d.device.as_str(),
                    "storage_wear",
                    Amount::UsedPercent(p),
                    Amount::UsedPercent(WORN_PERCENT),
                    bound(p as i64),
                    "storage_health",
                );
            }
        }
        assert(issue_views(issues@) =~= now + wear_issues(d@));
        let healthy = match &d.health_status {
            Some(s) => same(s, "healthy"),
            None => true,
        };
        if !healthy {
            add_condition(
                issues,
                d.device.as_str(),
                "storage_unhealthy",
                Amount::Seen(true),
                Amount::Seen(true),
                UNHEALTHY_SCORE,
                "storage_health",
            );
        }
        assert(issue_views(issues@) =~= now + device_issues(d@));
        assert(issue_views(issues@) =~= before + storage_health_issues(all.take(i + 1)));
        i = i + 1;
    }
    assert(all.take(all.len() as int) =~= all);
}

/// A battery that has lost much of its capacity.
pub open spec fn battery_issues(b: Option<SystemBatteryEvidenceView>) -> Seq<IssueView> {
    let least = Real { bits: WORN_BATTERY_BITS };
    match b {
        Some(b) => if b.present && b.health_percent is Some && at_least(
            least,
            b.health_percent->0,
        ) {
            seq![
                condition(
                    "battery"@,
                    "battery_wear"@,
                    Amount::HealthPercent(b.health_percent->0),
                    Amount::HealthPercent(least),
                    bounded(100 - whole(b.health_percent->0) as int),
                    "battery"@,
                ),
            ]
        } else {
            Seq::empty()
        },
        None => Seq::empty(),
    }
}

/// The evidence of the battery taken by its view.
pub open spec fn battery_view(b: Option<SystemBatteryEvidence>) -> Option<
    SystemBatteryEvidenceView,
> {
    match b {
        Some(b) => Some(b@),
        None => None,
    }
}

fn judge_battery(battery: &Option<SystemBatteryEvidence>, issues: &mut Vec<HealthIssue>)
    ensures
        issue_views(final(issues)@) == issue_views(old(issues)@) + battery_issues(
            battery_view(*battery),
        ),
{
    let ghost before = issue_views(issues@);
    if let Some(b) = battery {
        let least = Real { bits: WORN_BATTERY_BITS };
        if let Some(h) = b.health_percent {
            if b.present && is_at_least(least, h) {
                let left: u64 = whole_part(h);
                let score: u8 = if left >= 100 {
                    1
                } else {
                    bound(100 - left as i64)
                };
                add_condition(
                    issues,
                    "battery",
                    "battery_wear",
                    Amount::HealthPercent(h),
                    Amount::HealthPercent(least),
                    score,
                    "battery",
                );
            }
        }
    }
    assert(issue_views(issues@) =~= before + battery_issues(battery_view(*battery)));
}

/// An adapter whose signal is weak.
pub open spec fn adapter_issues(a: SystemWifiEvidenceView) -> Seq<IssueView> {
    match a.signal_percent {
        Some(p) => if p < WEAK_SIGNAL_PERCENT {
            seq![
                condition(
                    a.description,
                    "weak_signal"@,
                    Amount::SignalPercent(p),
                    Amount::SignalPercent(WEAK_SIGNAL_PERCENT),
                    bounded(100 - p),
                    "wifi"@,
                ),
            ]
        } else {
            Seq::empty()
        },
        None => Seq::empty(),
    }
}

/// The adapters whose signals are weak.
pub open spec fn wifi_issues(adapters: Seq<SystemWifiEvidenceView>) -> Seq<IssueView>
    decreases adapters.len(),
{
    if adapters.len() == 0 {
        Seq::empty()
    } else {
        wifi_issues(adapters.drop_last()) + adapter_issues(adapters.last())
    }
}

/// The adapters taken by their views.
pub open spec fn adapter_views(adapters: Seq<SystemWifiEvidence>) -> Seq<SystemWifiEvidenceView> {
    adapters.map_values(|a: SystemWifiEvidence| a@)
}

fn judge_wifi(adapters: &Vec<SystemWifiEvidence>, issues: &mut Vec<HealthIssue>)
    ensures
        issue_views(final(issues)@) == issue_views(old(issues)@) + wifi_issues(
            adapter_views(adapters@),
        ),
{
    let ghost before = issue_views(issues@);
    let ghost all = adapter_views(adapters@);
    let mut i: usize = 0;
    assert(all.take(0).len() == 0);
    assert(before + wifi_issues(all.take(0)) =~= before);
    while i < adapters.len()
        invariant
            all == adapter_views(adapters@),
            i <= adapters@.len(),
            issue_views(issues@) == before + wifi_issues(all.take(i as int)),
        decreases adapters@.len() - i,
    {
        let a = &adapters[i];
        let ghost now = issue_views(issues@);
        proof {
            assert(all.take(i + 1).drop_last() =~= all.take(i as int));
            assert(all.take(i + 1).last() == a@);
        }
        if let Some(p) = a.signal_percent {
            if p < WEAK_SIGNAL_PERCENT {
                add_condition(
                    issues,
                    a.description.as_str(),
                    "weak_signal",
                    Amount::SignalPercent(p),
                    Amount::SignalPercent(WEAK_SIGNAL_PERCENT),
                    bound(100 - p as i64),
                    "wifi",
                );
            }
        }
        assert(issue_views(issues@) =~= now + adapter_issues(a@));
        assert(issue_views(issues@) =~= before + wifi_issues(all.take(i + 1)));
        i = i + 1;
    }
    assert(all.take(all.len() as int) =~= all);
}

/// All conditions that are over their thresholds, as they are found.
pub open spec fn condition_issues(d: SystemDiagnosticDataView) -> Seq<IssueView> {
    growth_issues(d.memory_growth_bytes_per_second) + thermal_issues(d.thermal)
        + storage_health_issues(d.storage_health) + battery_issues(d.battery) + wifi_issues(d.wifi)
}

/// Adds the conditions that are over their thresholds.
pub fn judge_conditions(data: &SystemDiagnosticData, issues: &mut Vec<HealthIssue>)
    ensures
        issue_views(final(issues)@) == issue_views(old(issues)@) + condition_issues(data@),
{
    let ghost before = issue_views(issues@);
    judge_growth(data.memory_growth_bytes_per_second, issues);
    judge_thermal(&data.thermal, issues);
    judge_devices(&data.storage_health, issues);
    judge_battery(&data.battery, issues);
    judge_wifi(&data.wifi, issues);
    proof {
        assert(data@.thermal == thermal_view(data.thermal));
        assert(data@.storage_health =~= device_views(data.storage_health@));
        assert(data@.battery == battery_view(data.battery));
        assert(data@.wifi =~= adapter_views(data.wifi@));
        assert(issue_views(issues@) =~= before + condition_issues(data@));
    }
}

/// Is a condition told, with what was measured, its threshold and its score?
pub open spec fn tells_condition(
    issues: Seq<IssueView>,
    subject: Seq<char>,
    kind: Seq<char>,
    category: Seq<char>,
    value: Amount,
    threshold: Amount,
    score: int,
) -> bool {
    exists|k: int|
        0 <= k < issues.len() && {
            let i = #[trigger] issues[k];
            i.layer == "system"@ && i.subject == subject && i.kind == kind && i.category == category
                && i.value == value && i.threshold == threshold && i.score == score
        }
}

/// A condition over its threshold is told with what was measured. The score is the
/// measured number itself, or what is missing from a hundred where less is worse.
pub proof fn law_conditions_tell_what_was_measured(d: SystemDiagnosticDataView)
    ensures
        d.memory_growth_bytes_per_second matches Some(g) ==> g >= 52_428_800 ==> tells_condition(
            condition_issues(d),
            "memory"@,
            "memory_growth"@,
            "memory_growth"@,
            Amount::BytesPerSecond(g),
            Amount::BytesPerSecond(52_428_800),
            if g as int / 1048576 > 100 {
                100
            } else {
                g as int / 1048576
            },
        ),
        d.thermal matches Some(t) ==> (t.cpu_throttling == "observed"@ || t.cpu_frequency_reduced
            == Some(true)) ==> tells_condition(
            condition_issues(d),
            "cpu"@,
            "cpu_throttling"@,
            "thermal"@,
            Amount::Seen(true),
            Amount::Seen(true),
            70,
        ),
        d.thermal matches Some(t) ==> t.cpu_temperature_c matches Some(c) ==> at_least(
            c,
            Real { bits: 0x4056_8000_0000_0000 },
        ) ==> tells_condition(
            condition_issues(d),
            "cpu"@,
            "cpu_temperature"@,
            "thermal"@,
            Amount::Celsius(c),
            Amount::Celsius(Real { bits: 0x4056_8000_0000_0000 }),
            if whole(c) < 1 {
                1
            } else if whole(c) > 100 {
                100
            } else {
                whole(c) as int
            },
        ),
        forall|i: int|
            0 <= i < d.storage_health.len() && (#[trigger] d.storage_health[i]).percentage_used
                is Some && d.storage_health[i].percentage_used->0 >= 90 ==> tells_condition(
                condition_issues(d),
                d.storage_health[i].device,
                "storage_wear"@,
                "storage_health"@,
                Amount::UsedPercent(d.storage_health[i].percentage_used->0),
                Amount::UsedPercent(90),
                if d.storage_health[i].percentage_used->0 > 100 {
                    100
                } else {
                    d.storage_health[i].percentage_used->0 as int
                },
            ),
        forall|i: int|
            0 <= i < d.storage_health.len() && (#[trigger] d.storage_health[i]).health_status
                is Some && d.storage_health[i].health_status->0 != "healthy"@ ==> tells_condition(
                condition_issues(d),
                d.storage_health[i].device,
                "storage_unhealthy"@,
                "storage_health"@,
                Amount::Seen(true),
                Amount::Seen(true),
                90,
            ),
        d.battery matches Some(b) ==> b.health_percent matches Some(h) ==> b.present && at_least(
            Real { bits: 0x4049_0000_0000_0000 },
            h,
        ) ==> tells_condition(
            condition_issues(d),
            "battery"@,
            "battery_wear"@,
            "battery"@,
            Amount::HealthPercent(h),
            Amount::HealthPercent(Real { bits: 0x4049_0000_0000_0000 }),
            bounded(100 - whole(h) as int) as int,
        ),
        forall|i: int|
            0 <= i < d.wifi.len() && (#[trigger] d.wifi[i]).signal_percent is Some
                && d.wifi[i].signal_percent->0 < 25 ==> tells_condition(
                condition_issues(d),
                d.wifi[i].description,
                "weak_signal"@,
                "wifi"@,
                Amount::SignalPercent(d.wifi[i].signal_percent->0),
                Amount::SignalPercent(25),
                100 - d.wifi[i].signal_percent->0,
            ),
{
    let a = growth_issues(d.memory_growth_bytes_per_second);
    let b = thermal_issues(d.thermal);
    let c = storage_health_issues(d.storage_health);
    let e = battery_issues(d.battery);
    let f = wifi_issues(d.wifi);
    let all = condition_issues(d);
    assert(all =~= a + b + c + e + f);
    assert forall|k: int| 0 <= k < a.len() implies #[trigger] all[k] == a[k] by {}
    assert forall|k: int| 0 <= k < b.len() implies all[a.len() + k] == #[trigger] b[k] by {}
    assert forall|k: int| 0 <= k < c.len() implies all[a.len() + b.len() + k]
        == #[trigger] c[k] by {}
    assert forall|k: int| 0 <= k < e.len() implies all[a.len() + b.len() + c.len() + k]
        == #[trigger] e[k] by {}
    assert forall|k: int| 0 <= k < f.len() implies all[a.len() + b.len() + c.len() + e.len() + k]
        == #[trigger] f[k] by {}
    if let Some(g) = d.memory_growth_bytes_per_second {
        if g >= 52_428_800 {
            assert(all[0] == a[0]);
        }
    }
    if let Some(t) = d.thermal {
        let heat = heat_issues(t);
        if is_throttled(t) {
            assert(b[heat.len() as int].kind == "cpu_throttling"@);
        }
        if let Some(c) = t.cpu_temperature_c {
            if at_least(c, Real { bits: HOT_CPU_BITS }) {
                assert(b[0] == heat[0]);
            }
        }
    }
    assert forall|i: int| 0 <= i < d.storage_health.len() implies {
        let own = device_issues(#[trigger] d.storage_health[i]);
        forall|k: int| 0 <= k < own.len() ==> c.contains(#[trigger] own[k])
    } by {
        lemma_devices_are_told(d.storage_health, i);
    }
    assert forall|i: int|
        0 <= i < d.storage_health.len() && (#[trigger] d.storage_health[i]).percentage_used is Some
            && d.storage_health[i].percentage_used->0 >= 90 implies tells_condition(
        all,
        d.storage_health[i].device,
        "storage_wear"@,
        "storage_health"@,
        Amount::UsedPercent(d.storage_health[i].percentage_used->0),
        Amount::UsedPercent(90),
        if d.storage_health[i].percentage_used->0 > 100 {
            100
        } else {
            d.storage_health[i].percentage_used->0 as int
        },
    ) by {
        let own = device_issues(d.storage_health[i]);
        assert(own[0] == wear_issues(d.storage_health[i])[0]);
        assert(c.contains(own[0]));
        let k = choose|k: int| 0 <= k < c.len() && c[k] == own[0];
        assert(all[a.len() + b.len() + k] == c[k]);
    }
    assert forall|i: int|
        0 <= i < d.storage_health.len() && (#[trigger] d.storage_health[i]).health_status is Some
            && d.storage_health[i].health_status->0 != "healthy"@ implies tells_condition(
        all,
        d.storage_health[i].device,
        "storage_unhealthy"@,
        "storage_health"@,
        Amount::Seen(true),
        Amount::Seen(true),
        90,
    ) by {
        let own = device_issues(d.storage_health[i]);
        let last = own.len() - 1;
        assert(c.contains(own[last]));
        let k = choose|k: int| 0 <= k < c.len() && c[k] == own[last];
        assert(all[a.len() + b.len() + k] == c[k]);
    }
    if let Some(x) = d.battery {
        if e.len() > 0 {
            assert(all[(a.len() + b.len() + c.len()) as int] == e[0]);
        }
    }
    assert forall|i: int|
        0 <= i < d.wifi.len() && (#[trigger] d.wifi[i]).signal_percent is Some
            && d.wifi[i].signal_percent->0 < 25 implies tells_condition(
        all,
        d.wifi[i].description,
        "weak_signal"@,
        "wifi"@,
        Amount::SignalPercent(d.wifi[i].signal_percent->0),
        Amount::SignalPercent(25),
        100 - d.wifi[i].signal_percent->0,
    ) by {
        lemma_adapters_are_told(d.wifi, i);
        let own = adapter_issues(d.wifi[i]);
        assert(f.contains(own[0]));
        let k = choose|k: int| 0 <= k < f.len() && f[k] == own[0];
        assert(all[a.len() + b.len() + c.len() + e.len() + k] == f[k]);
    }
}

proof fn lemma_devices_are_told(devices: Seq<SystemStorageHealthEvidenceView>, i: int)
    requires
        0 <= i < devices.len(),
    ensures
        forall|k: int|
            0 <= k < device_issues(devices[i]).len() ==> storage_health_issues(devices).contains(
                #[trigger] device_issues(devices[i])[k],
            ),
    decreases devices.len(),
{
    let rest = devices.drop_last();
    let before = storage_health_issues(rest);
    let own = device_issues(devices.last());
    let all = storage_health_issues(devices);
    assert(all == before + own);
    if i < devices.len() - 1 {
        lemma_devices_are_told(rest, i);
        assert(rest[i] == devices[i]);
        assert forall|k: int| 0 <= k < device_issues(devices[i]).len() implies all.contains(
            #[trigger] device_issues(devices[i])[k],
        ) by {
            let x = device_issues(devices[i])[k];
            assert(before.contains(x));
            let m = choose|m: int| 0 <= m < before.len() && before[m] == x;
            assert(all[m] == x);
        }
    } else {
        assert forall|k: int| 0 <= k < own.len() implies all.contains(#[trigger] own[k]) by {
            assert(all[before.len() + k] == own[k]);
        }
    }
}

proof fn lemma_adapters_are_told(adapters: Seq<SystemWifiEvidenceView>, i: int)
    requires
        0 <= i < adapters.len(),
    ensures
        forall|k: int|
            0 <= k < adapter_issues(adapters[i]).len() ==> wifi_issues(adapters).contains(
                #[trigger] adapter_issues(adapters[i])[k],
            ),
    decreases adapters.len(),
{
    let rest = adapters.drop_last();
    let before = wifi_issues(rest);
    let own = adapter_issues(adapters.last());
    let all = wifi_issues(adapters);
    assert(all == before + own);
    if i < adapters.len() - 1 {
        lemma_adapters_are_told(rest, i);
        assert(rest[i] == adapters[i]);
        assert forall|k: int| 0 <= k < adapter_issues(adapters[i]).len() implies all.contains(
            #[trigger] adapter_issues(adapters[i])[k],
        ) by {
            let x = adapter_issues(adapters[i])[k];
            assert(before.contains(x));
            let m = choose|m: int| 0 <= m < before.len() && before[m] == x;
            assert(all[m] == x);
        }
    } else {
        assert forall|k: int| 0 <= k < own.len() implies all.contains(#[trigger] own[k]) by {
            assert(all[before.len() + k] == own[k]);
        }
    }
}

} // verus!
