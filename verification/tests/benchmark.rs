use robot_coordination::benchmark::{
    parse_args, parse_positive, prepare_run, runs_with, successful_runs, usage, Config, RunTally,
    ZONE_PAUSE_MS,
};
use robot_coordination::numerals::parse_unsigned;
use robot_coordination::text::numbered_message;
use robot_coordination::RobotStatus;

fn args(words: &[&str]) -> Vec<String> {
    words.iter().map(|word| word.to_string()).collect()
}

fn parsed(words: &[&str]) -> Config {
    parse_args(&args(words)).unwrap().unwrap()
}

fn refused(words: &[&str]) -> String {
    parse_args(&args(words)).unwrap_err()
}

#[test]
fn the_defaults() {
    let config = parsed(&[]);
    assert_eq!(config.repetitions, 10);
    assert_eq!(config.tasks, 60);
    assert_eq!(config.zones, 3);
    assert_eq!(config.duration_ms, 20);
    assert_eq!(config.max_robots, 6);
    assert_eq!(config.output, "../benchmark-results/local");
    assert_eq!(Config::default().tasks, 60);
}

#[test]
fn every_option_is_read() {
    let config = parsed(&[
        "--repetitions",
        "2",
        "--tasks",
        "+30",
        "--zones",
        "007",
        "--duration-ms",
        "4294967296",
        "--max-robots",
        "4294967295",
        "--output",
        "--tasks",
        "--tasks",
        "31",
    ]);
    assert_eq!(config.repetitions, 2);
    assert_eq!(config.tasks, 31);
    assert_eq!(config.zones, 7);
    assert_eq!(config.duration_ms, 4294967296);
    assert_eq!(config.max_robots, 4294967295);
    assert_eq!(config.output, "--tasks");
}

#[test]
fn help_ends_the_reading() {
    assert!(parse_args(&args(&["-h"])).unwrap().is_none());
    assert!(parse_args(&args(&["--tasks", "5", "--help", "--bogus"]))
        .unwrap()
        .is_none());
    assert_eq!(
        refused(&["--tasks", "0", "--help"]),
        "--tasks must be greater than zero"
    );
}

#[test]
fn mistakes_are_named() {
    assert_eq!(refused(&["--zones"]), "--zones requires a value");
    assert_eq!(
        refused(&["--zones", "many"]),
        "invalid value for --zones: many"
    );
    assert_eq!(refused(&["--zones", ""]), "invalid value for --zones: ");
    assert_eq!(refused(&["--zones", "-1"]), "invalid value for --zones: -1");
    assert_eq!(
        refused(&["--zones", "4294967296"]),
        "invalid value for --zones: 4294967296"
    );
    assert_eq!(
        refused(&["--duration-ms", "18446744073709551616"]),
        "invalid value for --duration-ms: 18446744073709551616"
    );
    assert_eq!(
        refused(&["--duration-ms", "0"]),
        "--duration-ms must be greater than zero"
    );
    assert_eq!(refused(&["--output"]), "--output requires a path");
    assert_eq!(
        refused(&["--bogus"]),
        format!("unknown option: --bogus\n\n{}", usage())
    );
}

#[test]
fn positive_numbers() {
    assert_eq!(parse_positive::<u32>("-n", Some("5".to_string())), Ok(5));
    assert_eq!(
        parse_positive::<u64>("-n", Some("18446744073709551615".to_string())),
        Ok(u64::MAX)
    );
    assert_eq!(
        parse_positive::<u32>("-n", None),
        Err("-n requires a value".to_string())
    );
    assert_eq!(
        parse_positive::<u64>("-n", Some("000".to_string())),
        Err("-n must be greater than zero".to_string())
    );
}

#[test]
fn numbers_are_read_as_the_standard_library_reads_them() {
    let texts = [
        "", "+", "-", "0", "+0", "-0", "7", "+7", "++7", " 7", "7 ", "7a", "0x7", "1_000", "٣",
        "18446744073709551615", "18446744073709551616", "99999999999999999999999", "000042",
        "18446744073709551616a",
    ];
    for text in texts {
        assert_eq!(parse_unsigned(text), text.parse::<u64>().ok());
    }
}

#[test]
fn numerals_round_trip() {
    for n in [0, 1, 9, 10, 99, 100, 1234567890, u64::MAX] {
        let text = numbered_message("", n, "");
        assert_eq!(text, n.to_string());
        assert_eq!(parse_unsigned(&text), Some(n));
    }
    assert_eq!(numbered_message("<", 407, ">"), "<407>");
}

#[test]
fn the_help_text() {
    assert_eq!(
        usage(),
        "TARDEM reproducible scalability benchmark\n\
\n\
Usage: cargo run --release --bin benchmark -- [OPTIONS]\n\
\n\
Options:\n\
  --repetitions N   Runs per robot count (default: 10)\n\
  --tasks N         Tasks per run (default: 60)\n\
  --zones N         Exclusive zones (default: 3)\n\
  --duration-ms N   Simulated work per task (default: 20)\n\
  --max-robots N    Test robot counts from 1 through N (default: 6)\n\
  --output PATH     CSV output directory (default: ../benchmark-results/local)\n\
  -h, --help        Show this help"
    );
}

#[test]
fn a_run_starts_with_its_fleet_and_its_tasks() {
    let config = parsed(&["--tasks", "5", "--zones", "2", "--duration-ms", "8"]);
    let mut coordinator = prepare_run(&config, 3);
    assert_eq!(coordinator.robot_count(), 3);
    assert_eq!(coordinator.queue_length(), 5);
    assert_eq!(coordinator.get_stats().total_tasks_created, 5);
    let robots = coordinator.get_online_robots();
    assert_eq!(robots[2].id, 2);
    assert_eq!(robots[2].name, "BenchmarkRobot-2");
    assert_eq!(robots[2].status, RobotStatus::Idle);
    assert!(!coordinator.is_zone_occupied(1));
    for i in 0..5 {
        let task = coordinator.request_task(0).unwrap();
        assert_eq!(task.id, i);
        assert_eq!(task.zone, i % 2);
        assert_eq!(task.duration_ms, 8);
        assert_eq!(task.description, "deterministic benchmark task");
    }
}

#[test]
fn successful_runs_are_counted_by_robots() {
    let good = RunTally {
        robots: 2,
        tasks: 9,
        completed: 9,
        remaining: 0,
    };
    let short = RunTally {
        completed: 8,
        ..good
    };
    let left = RunTally {
        remaining: 1,
        ..good
    };
    let other = RunTally { robots: 3, ..good };
    assert!(good.is_success());
    assert!(!short.is_success());
    assert!(!left.is_success());
    let tallies = vec![good, short, left, other, good];
    assert_eq!(successful_runs(&tallies, 2), 2);
    assert_eq!(successful_runs(&tallies, 3), 1);
    assert_eq!(successful_runs(&tallies, 4), 0);
    assert_eq!(runs_with(&tallies, 2), 4);
    assert_eq!(runs_with(&tallies, 3), 1);
    assert_eq!(runs_with(&tallies, 4), 0);
    assert_eq!(ZONE_PAUSE_MS, 1);
}
