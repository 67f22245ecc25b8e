//! Calls that prepare the runs of the benchmark and count them.
use crate::benchmark;
use crate::benchmark::{Config, RunTally};
use crate::clock;
use crate::coordinator::RobotCoordinator;
use crate::filtering;
use crate::robot::RobotStatus;
use crate::text;
use vstd::prelude::*;

verus! {

/// A run starts with the zones of its configuration, all free, with as many fresh robots as it is to
/// have, numbered from zero, and with its tasks, numbered from zero, each as long as the others and
/// counted once.
pub proof fn law_prepare_run(config: Config, robots: u32, c: RobotCoordinator)
    requires
        call_ensures(benchmark::prepare_run, (&config, robots), c),
    ensures
        c@.zones.len() == config.zones,
        forall|z: int| 0 <= z < config.zones ==> !(#[trigger] c@.zones[z]),
        !c@.monitoring,
        c@.robots.len() == robots,
        forall|i: int|
            0 <= i < robots ==> {
                &&& (#[trigger] c@.robots[i]).id == i
                &&& c@.robots[i].name@ == "BenchmarkRobot-"@ + text::decimal(i as nat)
                &&& c@.robots[i].status == RobotStatus::Idle
                &&& c@.robots[i].current_zone == None::<u32>
                &&& c@.robots[i].tasks_completed == 0
                &&& clock::is_reading(c@.robots[i].last_heartbeat)
            },
        c@.queue.len() == config.tasks,
        forall|i: int|
            0 <= i < config.tasks ==> {
                &&& (#[trigger] c@.queue[i]).id == i
                &&& c@.queue[i].duration_ms == config.duration_ms
                &&& c@.queue[i].description@ == "deterministic benchmark task"@
            },
        c@.stats.total_tasks_created == config.tasks,
        c@.stats.total_tasks_completed == 0,
        c@.stats.total_zone_access_attempts == 0,
        c@.stats.total_zone_access_grants == 0,
        c@.stats.total_zone_denials == 0,
        c@.stats.total_heartbeats_received == 0,
        c@.stats.total_timeouts_detected == 0,
{
    reveal_strlit("");
    assert forall|i: int| 0 <= i < robots implies (#[trigger] c@.robots[i]).name@
        == "BenchmarkRobot-"@ + text::decimal(i as nat) by {
        assert("BenchmarkRobot-"@ + text::decimal(i as nat) + ""@ =~= "BenchmarkRobot-"@
            + text::decimal(i as nat));
    }
    assert forall|i: int| 0 <= i < config.tasks implies (#[trigger] c@.queue[i]).duration_ms
        == config.duration_ms by {
        assert(benchmark::is_benchmark_task(config@, c@.queue[i], i));
    }
}

/// The tasks go round the zones: the first ones are for the zones in their order, and so many tasks
/// later as there are zones comes a task for the same zone.
pub proof fn law_tasks_go_round(config: Config, robots: u32, c: RobotCoordinator, i: int)
    requires
        call_ensures(benchmark::prepare_run, (&config, robots), c),
        config.zones > 0,
        0 <= i < config.tasks,
    ensures
        i < config.zones ==> c@.queue[i].zone == i,
        i + config.zones < config.tasks ==> c@.queue[i + config.zones].zone == c@.queue[i].zone,
{
    assert(benchmark::is_benchmark_task(config@, c@.queue[i], i));
    if i < config.zones {
        vstd::arithmetic::div_mod::lemma_small_mod(i as nat, config.zones as nat);
    }
    if i + config.zones < config.tasks {
        assert(benchmark::is_benchmark_task(
            config@,
            c@.queue[i + config.zones],
            i + config.zones,
        ));
        vstd::arithmetic::div_mod::lemma_mod_add_multiples_vanish(i, config.zones as int);
    }
}

proof fn lemma_next_round(start: int, zones: int, zone: int) -> (k: int)
    requires
        zones > 0,
        0 <= zone < zones,
        0 <= start,
    ensures
        start <= k < start + zones,
        k % zones == zone,
{
    let past = start % zones;
    let base = start - past;
    vstd::arithmetic::div_mod::lemma_fundamental_div_mod(start, zones);
    let k = if zone >= past {
        base + zone
    } else {
        base + zone + zones
    };
    let rounds = if zone >= past {
        start / zones
    } else {
        start / zones + 1
    };
    assert(k == rounds * zones + zone) by (nonlinear_arith)
        requires
            start == zones * (start / zones) + past,
            base == start - past,
            (zone >= past && k == base + zone && rounds == start / zones) || (zone < past && k
                == base + zone + zones && rounds == start / zones + 1),
    ;
    vstd::arithmetic::div_mod::lemma_fundamental_div_mod_converse(k, zones, rounds, zone);
    k
}

/// Any run of tasks as long as there are zones holds exactly one task for every zone.
pub proof fn law_round_meets_every_zone(
    config: Config,
    robots: u32,
    c: RobotCoordinator,
    start: int,
    zone: int,
) -> (k: int)
    requires
        call_ensures(benchmark::prepare_run, (&config, robots), c),
        config.zones > 0,
        0 <= start,
        start + config.zones <= config.tasks,
        0 <= zone < config.zones,
    ensures
        start <= k < start + config.zones,
        forall|j: int|
            start <= j < start + config.zones ==> ((#[trigger] c@.queue[j]).zone == zone <==> j
                == k),
{
    let zones = config.zones as int;
    let k = lemma_next_round(start, zones, zone);
    assert forall|j: int| start <= j < start + zones implies ((#[trigger] c@.queue[j]).zone == zone
        <==> j == k) by {
        assert(benchmark::is_benchmark_task(config@, c@.queue[j], j));
        if j % zones == zone && j != k {
            vstd::arithmetic::div_mod::lemma_fundamental_div_mod(j, zones);
            vstd::arithmetic::div_mod::lemma_fundamental_div_mod(k, zones);
            assert(false) by (nonlinear_arith)
                requires
                    zones > 0,
                    j == zones * (j / zones) + zone,
                    k == zones * (k / zones) + zone,
                    -zones < j - k < zones,
                    j != k,
            ;
        }
    }
    k
}

/// A run is a success exactly if as many tasks were completed as there were, and none remains.
pub proof fn law_is_success(tally: RunTally, success: bool)
    requires
        call_ensures(RunTally::is_success, (&tally,), success),
    ensures
        success <==> tally.completed == tally.tasks && tally.remaining == 0,
{
}

/// The runs that are counted are those with the given number of robots; the successful ones among
/// them are those in which as many tasks were completed as there were, and none remains.
pub proof fn law_runs_are_counted(
    tallies: Vec<RunTally>,
    robots: u32,
    runs: usize,
    successes: usize,
)
    requires
        call_ensures(benchmark::runs_with, (&tallies, robots), runs),
        call_ensures(benchmark::successful_runs, (&tallies, robots), successes),
    ensures
        runs == tallies@.filter(|tally: RunTally| tally.robots == robots).len(),
        successes == tallies@.filter(
            |tally: RunTally|
                tally.robots == robots && tally.completed == tally.tasks && tally.remaining == 0,
        ).len(),
        successes <= runs,
{
    let counted = |tally: RunTally| tally.robots == robots;
    let succeeded = |tally: RunTally| tally.robots == robots && tally.succeeded();
    filtering::lemma_filter_same(
        tallies@,
        succeeded,
        |tally: RunTally|
            tally.robots == robots && tally.completed == tally.tasks && tally.remaining == 0,
    );
    filtering::lemma_filter_narrower(tallies@, succeeded, counted);
}

} // verus!
