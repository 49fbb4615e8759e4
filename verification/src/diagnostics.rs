//! How bad a measurement is: scores from 1 to 100, and what they are called.

use crate::floats::{whole, whole_part};
use crate::models::Real;
use vstd::prelude::*;

verus! {

/// A percentage brought between 1 and 100.
pub open spec fn bounded(n: int) -> u8 {
    if n < 1 {
        1
    } else if n > 100 {
        100
    } else {
        n as u8
    }
}

/// How many whole percent `part` is of `all`.
pub open spec fn percent_of(part: u64, all: u64) -> int {
    part as int * 100 / all as int
}

/// How many whole percent `part` is of `all`, at most 1000.
pub fn percent_part(part: u64, all: u64) -> (r: u64)
    requires
        all > 0,
    ensures
        r == (if percent_of(part, all) > 1000 {
            1000
        } else {
            percent_of(part, all)
        }),
{
    let n: u128 = part as u128 * 100 / all as u128;
    if n > 1000 {
        1000
    } else {
        n as u64
    }
}

/// The score of an application that keeps the processor busy.
pub open spec fn cpu_score(cpu_percent: Real) -> u8 {
    bounded(whole(cpu_percent) as int)
}

/// The score of an application that keeps the processor busy.
pub fn app_cpu_score(cpu_percent: Real) -> (r: u8)
    ensures
        r == cpu_score(cpu_percent),
        1 <= r <= 100,
{
    let n = whole_part(cpu_percent);
    if n < 1 {
        1
    } else if n > 100 {
        100
    } else {
        n as u8
    }
}

/// The score of an application that takes up memory: 50, and what it takes of
/// the whole memory in percent.
pub open spec fn memory_score(working_set_bytes: u64, total_bytes: Option<u64>) -> u8 {
    match total_bytes {
        Some(t) => if t > 0 {
            bounded(50 + percent_of(working_set_bytes, t))
        } else {
            50
        },
        None => 50,
    }
}

/// The score of an application that takes up memory.
pub fn app_memory_score(working_set_bytes: u64, total_bytes: Option<u64>) -> (r: u8)
    ensures
        r == memory_score(working_set_bytes, total_bytes),
        1 <= r <= 100,
{
    match total_bytes {
        Some(t) => {
            if t > 0 {
                let n = percent_part(working_set_bytes, t);
                proof {
                    assert(percent_of(working_set_bytes, t) >= 0) by (nonlinear_arith)
                        requires
                            t > 0,
                            percent_of(working_set_bytes, t) == working_set_bytes as int * 100
                                / t as int,
                    ;
                }
                if n >= 50 {
                    100
                } else {
                    (50 + n) as u8
                }
            } else {
                50
            }
        },
        None => 50,
    }
}

/// The score of a volume that runs full: 100 up to one percent free, and five
/// less for each percent more.
pub open spec fn space_score(free_percent: int) -> u8 {
    bounded(105 - 5 * free_percent)
}

/// The score of a volume with so much space left; full marks where its size is
/// not known.
pub open spec fn drive_score(free_bytes: Option<u64>, total_bytes: Option<u64>) -> u8 {
    match (free_bytes, total_bytes) {
        (Some(f), Some(t)) => if t > 0 {
            space_score(percent_of(f, t))
        } else {
            100
        },
        _ => 100,
    }
}

/// The score of a volume with so much space left.
pub fn storage_score(free_bytes: Option<u64>, total_bytes: Option<u64>) -> (r: u8)
    ensures
        r == drive_score(free_bytes, total_bytes),
        1 <= r <= 100,
{
    match (free_bytes, total_bytes) {
        (Some(f), Some(t)) => {
            if t > 0 {
                let n = percent_part(f, t);
                proof {
                    assert(percent_of(f, t) >= 0) by (nonlinear_arith)
                        requires
                            t > 0,
                            percent_of(f, t) == f as int * 100 / t as int,
                    ;
                }
                if n <= 1 {
                    100
                } else if n >= 21 {
                    1
                } else {
                    (105 - 5 * n) as u8
                }
            } else {
                100
            }
        },
        _ => 100,
    }
}

/// The score of a memory under load: the load in percent, or what is taken of
/// it, whichever is more.
pub open spec fn pressure_score(load: Real, available: Option<u64>, total: Option<u64>) -> u8 {
    let by_load = whole(load) as int;
    match (available, total) {
        (Some(a), Some(t)) => if t > 0 && 100 - percent_of(a, t) > by_load {
            bounded(100 - percent_of(a, t))
        } else {
            bounded(by_load)
        },
        _ => bounded(by_load),
    }
}

/// The score of a memory under load.
pub fn memory_pressure_score(load: Real, available: Option<u64>, total: Option<u64>) -> (r: u8)
    ensures
        r == pressure_score(load, available, total),
        1 <= r <= 100,
{
    let by_load = app_cpu_score(load);
    match (available, total) {
        (Some(a), Some(t)) => {
            if t > 0 {
                let n = percent_part(a, t);
                proof {
                    assert(percent_of(a, t) >= 0) by (nonlinear_arith)
                        requires
                            t > 0,
                            percent_of(a, t) == a as int * 100 / t as int,
                    ;
                }
                if n < 100 && (100 - n) as u8 > by_load {
                    return (100 - n) as u8;
                }
            }
            by_load
        },
        _ => by_load,
    }
}

/// What a score is called.
pub open spec fn severity_of(score: u8) -> Seq<char> {
    if score >= 80 {
        "critical"@
    } else if score >= 60 {
        "high"@
    } else if score >= 40 {
        "medium"@
    } else {
        "low"@
    }
}

/// What a score is called.
pub fn severity(score: u8) -> (r: &'static str)
    ensures
        r@ == severity_of(score),
{
    if score >= 80 {
        "critical"
    } else if score >= 60 {
        "high"
    } else if score >= 40 {
        "medium"
    } else {
        "low"
    }
}

/// A worse measurement never scores less: more memory, less free space, less
/// memory available. And every score is at least 1 and at most 100.
pub proof fn law_worse_scores_higher(a: u64, b: u64, total: u64, load: Real)
    requires
        a <= b,
        total > 0,
    ensures
        memory_score(a, Some(total)) <= memory_score(b, Some(total)),
        drive_score(Some(a), Some(total)) >= drive_score(Some(b), Some(total)),
        pressure_score(load, Some(a), Some(total)) >= pressure_score(load, Some(b), Some(total)),
        1 <= memory_score(a, Some(total)) <= 100,
        1 <= drive_score(Some(a), Some(total)) <= 100,
        1 <= pressure_score(load, Some(a), Some(total)) <= 100,
        a == 0 ==> drive_score(Some(a), Some(total)) == 100,
        b >= total ==> memory_score(b, Some(total)) == 100 && drive_score(Some(b), Some(total))
            == 1,
{
    assert(percent_of(a, total) <= percent_of(b, total)) by (nonlinear_arith)
        requires
            a <= b,
            total > 0,
            percent_of(a, total) == a as int * 100 / total as int,
            percent_of(b, total) == b as int * 100 / total as int,
    ;
    assert(0 <= percent_of(a, total)) by (nonlinear_arith)
        requires
            total > 0,
            percent_of(a, total) == a as int * 100 / total as int,
    ;
    if a == 0 {
        assert(percent_of(a, total) == 0) by (nonlinear_arith)
            requires
                a == 0,
                total > 0,
                percent_of(a, total) == a as int * 100 / total as int,
        ;
    }
    if b >= total {
        assert(percent_of(b, total) >= 100) by (nonlinear_arith)
            requires
                b >= total,
                total > 0,
                percent_of(b, total) == b as int * 100 / total as int,
        ;
    }
}

/// What a score is called: from 80 up critical, from 60 up high, from 40 up
/// medium, below that low.
pub proof fn law_severities_are_bands(score: u8, r: &'static str)
    requires
        call_ensures(severity, (score,), r),
    ensures
        r@ == "critical"@ <==> score >= 80,
        r@ == "high"@ <==> 60 <= score < 80,
        r@ == "medium"@ <==> 40 <= score < 60,
        r@ == "low"@ <==> score < 40,
{
    reveal_strlit("critical");
    assert("critical"@.len() == 8);
    reveal_strlit("high");
    assert("high"@.len() == 4);
    reveal_strlit("medium");
    assert("medium"@.len() == 6);
    reveal_strlit("low");
    assert("low"@.len() == 3);
}

/// With `p` whole percent, a working set scores fifty and its share, a volume loses five
/// points with each percent that is free beyond the first, and memory scores the share
/// that is not available or the load, whichever is higher.
pub proof fn law_scores_follow_the_shares(
    part: u64,
    total: u64,
    p: int,
    load: Real,
    memory: u8,
    drive: u8,
    pressure: u8,
    busy: u8,
)
    requires
        total > 0,
        p * total <= part * 100 < (p + 1) * total,
        call_ensures(app_memory_score, (part, Some(total)), memory),
        call_ensures(storage_score, (Some(part), Some(total)), drive),
        call_ensures(memory_pressure_score, (load, Some(part), Some(total)), pressure),
        call_ensures(app_cpu_score, (load,), busy),
    ensures
        p <= 50 ==> memory == 50 + p,
        p > 50 ==> memory == 100,
        p <= 1 ==> drive == 100,
        1 <= p <= 20 ==> drive + 5 * p == 105,
        p > 20 ==> drive == 1,
        100 - p > whole(load) ==> pressure + p == 100,
        100 - p <= whole(load) ==> pressure == busy,
        1 <= whole(load) <= 100 ==> busy == whole(load),
        whole(load) == 0 ==> busy == 1,
        whole(load) > 100 ==> busy == 100,
{
    let rest = part * 100 - p * total;
    assert(0 <= rest < total) by (nonlinear_arith)
        requires
            p * total <= part * 100 < (p + 1) * total,
            rest == part * 100 - p * total,
    ;
    vstd::arithmetic::div_mod::lemma_fundamental_div_mod_converse(
        part as int * 100,
        total as int,
        p,
        rest,
    );
    assert(percent_of(part, total) == p);
    assert(p >= 0) by (nonlinear_arith)
        requires
            part * 100 < (p + 1) * total,
            part >= 0,
            total > 0,
    ;
}

/// What is not known of the memory counts as half, and of a volume as the worst.
pub proof fn law_unknown_shares_have_scores(part: u64, of_part: Option<u64>, memory: u8, drive: u8)
    requires
        call_ensures(app_memory_score, (part, None), memory),
        call_ensures(storage_score, (of_part, None), drive),
    ensures
        memory == 50,
        drive == 100,
{
}

} // verus!
