//! The scalability benchmark: its options, its workload, and which of its runs succeeded.
use crate::clock;
use crate::coordinator::RobotCoordinator;
use crate::filtering;
use crate::model::CoordinatorState;
use crate::numerals;
use crate::robot::{Robot, RobotStatus};
use crate::task::Task;
use crate::text;
use vstd::prelude::*;

verus! {

pub const DEFAULT_REPETITIONS: u32 = 10;

pub const DEFAULT_TASKS: u32 = 60;

pub const DEFAULT_ZONES: u32 = 3;

pub const DEFAULT_DURATION_MS: u64 = 20;

pub const DEFAULT_MAX_ROBOTS: u32 = 6;

/// How long a robot of the benchmark waits for a held zone.
pub const ZONE_PAUSE_MS: u64 = 1;

pub const DEFAULT_OUTPUT: &'static str = "../benchmark-results/local";

/// The help text.
pub const USAGE: &'static str = "TARDEM reproducible scalability benchmark\n\
\n\
Usage: cargo run --release --bin benchmark -- [OPTIONS]\n\
\n\
Options:\n\
  --repetitions N   Runs per robot count (default: 10)\n\
  --tasks N         Tasks per run (default: 60)\n\
  --zones N         Exclusive zones (default: 3)\n\
  --duration-ms N   Simulated work per task (default: 20)\n\
  --max-robots N    Test robot counts from 1 through N (default: 6)\n\
  --output PATH     CSV output directory (default: ../benchmark-results/local)\n\
  -h, --help        Show this help";

/// The help text.
pub fn usage() -> (help: &'static str)
    ensures
        help@ == USAGE@,
{
    USAGE
}

/// What a benchmark is to do.
#[derive(Debug)]
pub struct Config {
    pub repetitions: u32,
    pub tasks: u32,
    pub zones: u32,
    pub duration_ms: u64,
    pub max_robots: u32,
    /// The directory for the results.
    pub output: String,
}

/// The contents of a `Config`.
#[verifier::ext_equal]
pub struct ConfigView {
    pub repetitions: u32,
    pub tasks: u32,
    pub zones: u32,
    pub duration_ms: u64,
    pub max_robots: u32,
    pub output: Seq<char>,
}

impl View for Config {
    type V = ConfigView;

    open spec fn view(&self) -> ConfigView {
        ConfigView {
            repetitions: self.repetitions,
            tasks: self.tasks,
            zones: self.zones,
            duration_ms: self.duration_ms,
            max_robots: self.max_robots,
            output: self.output@,
        }
    }
}

impl ConfigView {
    /// What holds for every option that is not given.
    pub open spec fn defaults() -> Self {
        ConfigView {
            repetitions: DEFAULT_REPETITIONS,
            tasks: DEFAULT_TASKS,
            zones: DEFAULT_ZONES,
            duration_ms: DEFAULT_DURATION_MS,
            max_robots: DEFAULT_MAX_ROBOTS,
            output: DEFAULT_OUTPUT@,
        }
    }

    /// The config with the number `n` for `flag`; `None` if no such flag takes a number.
    pub open spec fn with_number(self, flag: Seq<char>, n: nat) -> Option<Self> {
        if flag == "--repetitions"@ {
            Some(ConfigView { repetitions: n as u32, ..self })
        } else if flag == "--tasks"@ {
            Some(ConfigView { tasks: n as u32, ..self })
        } else if flag == "--zones"@ {
            Some(ConfigView { zones: n as u32, ..self })
        } else if flag == "--duration-ms"@ {
            Some(ConfigView { duration_ms: n as u64, ..self })
        } else if flag == "--max-robots"@ {
            Some(ConfigView { max_robots: n as u32, ..self })
        } else {
            None
        }
    }

    /// Whether every number is positive.
    pub open spec fn positive(self) -> bool {
        &&& self.repetitions > 0
        &&& self.tasks > 0
        &&& self.zones > 0
        &&& self.duration_ms > 0
        &&& self.max_robots > 0
    }

    /// The largest number that `flag` takes.
    pub open spec fn number_limit(flag: Seq<char>) -> nat {
        if flag == "--duration-ms"@ {
            u64::MAX as nat
        } else {
            u32::MAX as nat
        }
    }
}

impl Default for Config {
    fn default() -> (config: Self)
        ensures
            config@ == ConfigView::defaults(),
    {
        Config {
            repetitions: DEFAULT_REPETITIONS,
            tasks: DEFAULT_TASKS,
            zones: DEFAULT_ZONES,
            duration_ms: DEFAULT_DURATION_MS,
            max_robots: DEFAULT_MAX_ROBOTS,
            output: DEFAULT_OUTPUT.to_owned(),
        }
    }
}

/// An unsigned number that an option can take.
pub trait Unsigned: Sized {
    /// The number.
    spec fn value(self) -> nat;

    /// The largest number of the type.
    spec fn limit() -> nat;

    /// The number `wide`, if it fits.
    fn narrow(wide: u64) -> (narrow: Option<Self>)
        ensures
            match narrow {
                Some(n) => n.value() == wide && wide <= Self::limit(),
                None => wide > Self::limit(),
            },
    ;

    /// No number of the type is beyond what `narrow` can be asked for.
    proof fn limit_is_narrow()
        ensures
            Self::limit() <= u64::MAX,
    ;
}

impl Unsigned for u32 {
    open spec fn value(self) -> nat {
        self as nat
    }

    open spec fn limit() -> nat {
        u32::MAX as nat
    }

    fn narrow(wide: u64) -> (narrow: Option<Self>) {
        if wide <= u32::MAX as u64 {
            Some(wide as u32)
        } else {
            None
        }
    }

    proof fn limit_is_narrow() {
    }
}

impl Unsigned for u64 {
    open spec fn value(self) -> nat {
        self as nat
    }

    open spec fn limit() -> nat {
        u64::MAX as nat
    }

    fn narrow(wide: u64) -> (narrow: Option<Self>) {
        Some(wide)
    }

    proof fn limit_is_narrow() {
    }
}

/// Why `value` is refused as the positive number, at most `limit`, of `flag`, if it is.
pub open spec fn positive_refusal(flag: Seq<char>, value: Option<Seq<char>>, limit: nat) -> Option<
    Seq<char>,
> {
    match value {
        None => Some(flag + " requires a value"@),
        Some(raw) => match numerals::unsigned_value(raw) {
            Some(n) => if n > limit {
                Some("invalid value for "@ + flag + ": "@ + raw)
            } else if n == 0 {
                Some(flag + " must be greater than zero"@)
            } else {
                None
            },
            None => Some("invalid value for "@ + flag + ": "@ + raw),
        },
    }
}

/// The contents of an optional string.
pub open spec fn optional_text(value: Option<String>) -> Option<Seq<char>> {
    match value {
        Some(text) => Some(text@),
        None => None,
    }
}

/// Reads the positive number that option `flag` was given.
pub fn parse_positive<T: Unsigned>(flag: &str, value: Option<String>) -> (number: Result<T, String>)
    ensures
        match number {
            Ok(n) => {
                &&& positive_refusal(flag@, optional_text(value), T::limit()) is None
                &&& numerals::unsigned_value(value->0@) == Some(n.value())
            },
            Err(message) => positive_refusal(flag@, optional_text(value), T::limit()) == Some(
                message@,
            ),
        },
{
    proof {
        T::limit_is_narrow();
    }
    match value {
        None => {
            let mut message = flag.to_owned();
            message.append(" requires a value");
            Err(message)
        },
        Some(raw) => {
            let wide = numerals::parse_unsigned(raw.as_str());
            let zero = wide.is_some() && wide.unwrap() == 0;
            if zero {
                let mut message = flag.to_owned();
                message.append(" must be greater than zero");
                return Err(message);
            }
            let narrow: Option<T> = match wide {
                Some(n) => T::narrow(n),
                None => None,
            };
            match narrow {
                Some(n) => Ok(n),
                None => {
                    let mut message = "invalid value for ".to_owned();
                    message.append(flag);
                    message.append(": ");
                    message.append(raw.as_str());
                    Err(message)
                },
            }
        },
    }
}

/// What a command line asks for.
#[verifier::ext_equal]
pub enum Request {
    Help,
    Run(ConfigView),
    Refused(Seq<char>),
}

/// The texts of a list of strings.
pub open spec fn texts(strings: Seq<String>) -> Seq<Seq<char>> {
    strings.map_values(|s: String| s@)
}

/// What `args` ask for, given the options read so far. They are read from the left: a request for
/// help or a mistake ends the reading, and a later option overrides an earlier one.
pub open spec fn requested(args: Seq<Seq<char>>, config: ConfigView) -> Request
    decreases args.len(),
{
    if args.len() == 0 {
        Request::Run(config)
    } else {
        let flag = args[0];
        let value = if args.len() > 1 {
            Some(args[1])
        } else {
            None
        };
        if flag == "-h"@ || flag == "--help"@ {
            Request::Help
        } else if config.with_number(flag, 0) is Some {
            match positive_refusal(flag, value, ConfigView::number_limit(flag)) {
                Some(why) => Request::Refused(why),
                None => requested(
                    args.skip(2),
                    config.with_number(flag, numerals::unsigned_value(args[1])->0)->0,
                ),
            }
        } else if flag == "--output"@ {
            match value {
                Some(path) => requested(args.skip(2), ConfigView { output: path, ..config }),
                None => Request::Refused("--output requires a path"@),
            }
        } else {
            Request::Refused("unknown option: "@ + flag + "\n\n"@ + USAGE@)
        }
    }
}

pub(crate) proof fn lemma_duration_flag_differs()
    ensures
        "--repetitions"@ != "--duration-ms"@,
        "--tasks"@ != "--duration-ms"@,
        "--zones"@ != "--duration-ms"@,
        "--max-robots"@ != "--duration-ms"@,
{
    reveal_strlit("--repetitions");
    reveal_strlit("--tasks");
    reveal_strlit("--zones");
    reveal_strlit("--duration-ms");
    reveal_strlit("--max-robots");
    assert("--repetitions"@[2] != "--duration-ms"@[2]);
}

fn is_flag(arg: &String, flag: &str) -> (same: bool)
    ensures
        same == (arg@ == flag@),
{
    *arg == flag.to_owned()
}

fn argument(args: &Vec<String>, index: usize) -> (value: Option<String>)
    ensures
        value == (if index < args.len() {
            Some(args[index as int])
        } else {
            None
        }),
{
    if index < args.len() {
        Some(args[index].clone())
    } else {
        None
    }
}

/// Reads the command line, without the program's name. The answer is `None` for a request for
/// help.
pub fn parse_args(args: &Vec<String>) -> (config: Result<Option<Config>, String>)
    ensures
        match config {
            Ok(Some(config)) => requested(texts(args@), ConfigView::defaults()) == Request::Run(
                config@,
            ),
            Ok(None) => requested(texts(args@), ConfigView::defaults()) == Request::Help,
            Err(message) => requested(texts(args@), ConfigView::defaults()) == Request::Refused(
                message@,
            ),
        },
{
    let mut config = Config::default();
    let mut index: usize = 0;
    let ghost all = texts(args@);
    assert(all.skip(0) =~= all);
    while index < args.len()
        invariant
            index <= args.len(),
            all == texts(args@),
            requested(all, ConfigView::defaults()) == requested(all.skip(index as int), config@),
        decreases args.len() - index,
    {
        let flag = &args[index];
        let ghost rest = all.skip(index as int);
        proof {
            lemma_duration_flag_differs();
        }
        if is_flag(flag, "-h") || is_flag(flag, "--help") {
            return Ok(None);
        }
        let value = argument(args, index + 1);
        if is_flag(flag, "--repetitions") {
            match parse_positive::<u32>(flag.as_str(), value) {
                Ok(n) => config.repetitions = n,
                Err(message) => return Err(message),
            }
        } else if is_flag(flag, "--tasks") {
            match parse_positive::<u32>(flag.as_str(), value) {
                Ok(n) => config.tasks = n,
                Err(message) => return Err(message),
            }
        } else if is_flag(flag, "--zones") {
            match parse_positive::<u32>(flag.as_str(), value) {
                Ok(n) => config.zones = n,
                Err(message) => return Err(message),
            }
        } else if is_flag(flag, "--duration-ms") {
            match parse_positive::<u64>(flag.as_str(), value) {
                Ok(n) => config.duration_ms = n,
                Err(message) => return Err(message),
            }
        } else if is_flag(flag, "--max-robots") {
            match parse_positive::<u32>(flag.as_str(), value) {
                Ok(n) => config.max_robots = n,
                Err(message) => return Err(message),
            }
        } else if is_flag(flag, "--output") {
            match value {
                Some(path) => config.output = path,
                None => return Err("--output requires a path".to_owned()),
            }
        } else {
            let mut message = "unknown option: ".to_owned();
            message.append(flag.as_str());
            message.append("\n\n");
            message.append(usage());
            return Err(message);
        }
        assert(rest.skip(2) =~= all.skip(index + 2));
        index = index + 2;
    }
    Ok(Some(config))
}

/// Whether `task` is task number `i` of a benchmark: the tasks go round the zones.
pub open spec fn is_benchmark_task(config: ConfigView, task: Task, i: int) -> bool {
    &&& task.id == i
    &&& task.zone == i % (config.zones as int)
    &&& task.duration_ms == config.duration_ms
    &&& task.description@ == "deterministic benchmark task"@
}

/// Whether `robot` is robot number `i` of a benchmark, fresh.
pub open spec fn is_benchmark_robot(robot: Robot, i: int) -> bool {
    &&& robot.id == i
    &&& robot.name@ == text::numbered("BenchmarkRobot-"@, i as nat, ""@)
    &&& robot.status == RobotStatus::Idle
    &&& robot.current_zone == None::<u32>
    &&& robot.tasks_completed == 0
    &&& clock::is_reading(robot.last_heartbeat)
}

/// A coordinator ready for one run: every zone free, `robots` fresh robots, and every task of the
/// benchmark in the queue.
pub fn prepare_run(config: &Config, robots: u32) -> (coordinator: RobotCoordinator)
    requires
        config.tasks > 0 ==> config.zones > 0,
    ensures
        coordinator.wf(),
        coordinator@ == (CoordinatorState {
            queue: coordinator@.queue,
            robots: coordinator@.robots,
            stats: CoordinatorState::initial(config.zones as nat).stats.plus_created(
                config.tasks as int,
            ),
            ..CoordinatorState::initial(config.zones as nat)
        }),
        coordinator@.robots.len() == robots,
        forall|i: int|
            0 <= i < robots ==> is_benchmark_robot(#[trigger] coordinator@.robots[i], i),
        coordinator@.queue.len() == config.tasks,
        forall|i: int|
            0 <= i < config.tasks ==> is_benchmark_task(
                config@,
                #[trigger] coordinator@.queue[i],
                i,
            ),
{
    let mut coordinator = RobotCoordinator::new(config.zones);
    let ghost start = coordinator@;
    let mut robot_id: u32 = 0;
    while robot_id < robots
        invariant
            robot_id <= robots,
            coordinator.wf(),
            coordinator@ == (CoordinatorState { robots: coordinator@.robots, ..start }),
            coordinator@.robots.len() == robot_id,
            forall|i: int|
                0 <= i < robot_id ==> is_benchmark_robot(#[trigger] coordinator@.robots[i], i),
        decreases robots - robot_id,
    {
        let name = text::numbered_message("BenchmarkRobot-", robot_id as u64, "");
        let registered = coordinator.register_robot(Robot::new(robot_id, name.as_str()));
        assert(registered is Ok);
        robot_id = robot_id + 1;
    }
    let ghost fleet = coordinator@;
    let mut task_id: u32 = 0;
    while task_id < config.tasks
        invariant
            task_id <= config.tasks,
            config.tasks > 0 ==> config.zones > 0,
            coordinator.wf(),
            fleet.stats == start.stats,
            start == CoordinatorState::initial(config.zones as nat),
            coordinator@ == (CoordinatorState {
                queue: coordinator@.queue,
                stats: start.stats.plus_created(task_id as int),
                ..fleet
            }),
            coordinator@.queue.len() == task_id,
            forall|i: int|
                0 <= i < task_id ==> is_benchmark_task(
                    config@,
                    #[trigger] coordinator@.queue[i],
                    i,
                ),
        decreases config.tasks - task_id,
    {
        coordinator.add_task(
            Task::new(
                task_id,
                task_id % config.zones,
                config.duration_ms,
                "deterministic benchmark task",
            ),
        );
        task_id = task_id + 1;
    }
    coordinator
}

/// What one run did, as far as its success goes.
#[derive(Debug, Clone, Copy, PartialEq, Eq, Structural)]
pub struct RunTally {
    pub robots: u32,
    pub tasks: u32,
    pub completed: u32,
    pub remaining: usize,
}

impl RunTally {
    /// Whether every task was completed and none is left.
    pub open spec fn succeeded(self) -> bool {
        self.completed == self.tasks && self.remaining == 0
    }

    /// Whether every task was completed and none is left.
    pub fn is_success(&self) -> (success: bool)
        ensures
            success == self.succeeded(),
    {
        self.completed == self.tasks && self.remaining == 0
    }
}

/// The number of runs with `robots` robots.
pub fn runs_with(tallies: &Vec<RunTally>, robots: u32) -> (count: usize)
    ensures
        count == tallies@.filter(|tally: RunTally| tally.robots == robots).len(),
{
    let mut count: usize = 0;
    let mut index: usize = 0;
    let ghost counted = |tally: RunTally| tally.robots == robots;
    proof {
        reveal(Seq::filter);
    }
    while index < tallies.len()
        invariant
            counted == (|tally: RunTally| tally.robots == robots),
            count <= index <= tallies.len(),
            count == tallies@.take(index as int).filter(counted).len(),
        decreases tallies.len() - index,
    {
        proof {
            filtering::lemma_filter_step(tallies@, index as int, counted);
        }
        if tallies[index].robots == robots {
            count = count + 1;
        }
        index = index + 1;
    }
    assert(tallies@.take(index as int) =~= tallies@);
    count
}

/// The number of successful runs with `robots` robots.
pub fn successful_runs(tallies: &Vec<RunTally>, robots: u32) -> (count: usize)
    ensures
        count == tallies@.filter(|tally: RunTally| tally.robots == robots && tally.succeeded()).len(),
{
    let mut count: usize = 0;
    let mut index: usize = 0;
    let ghost counted = |tally: RunTally| tally.robots == robots && tally.succeeded();
    proof {
        reveal(Seq::filter);
    }
    while index < tallies.len()
        invariant
            counted == (|tally: RunTally| tally.robots == robots && tally.succeeded()),
            count <= index <= tallies.len(),
            count == tallies@.take(index as int).filter(counted).len(),
        decreases tallies.len() - index,
    {
        proof {
            filtering::lemma_filter_step(tallies@, index as int, counted);
        }
        if tallies[index].robots == robots && tallies[index].is_success() {
            count = count + 1;
        }
        index = index + 1;
    }
    assert(tallies@.take(index as int) =~= tallies@);
    count
}

} // verus!
