use robot_coordination::{
    CoordinatorStats, DispatchOutcome, Robot, RobotCoordinator, RobotStatus, StatusReport, Task,
    TaskClaim, WorkerStep, ZoneGuard,
};
use std::time::{Duration, Instant};

fn coordinator(num_zones: u32, robot_ids: &[u32]) -> RobotCoordinator {
    let mut coordinator = RobotCoordinator::new(num_zones);
    for id in robot_ids {
        coordinator
            .register_robot(Robot::new(*id, &format!("Robot-{}", id)))
            .unwrap();
    }
    coordinator
}

fn task(id: u32, zone: u32) -> Task {
    Task::new(id, zone, 50, "work")
}

fn refusal<T>(answer: Result<T, String>) -> String {
    match answer {
        Ok(_) => panic!("the request should be refused"),
        Err(message) => message,
    }
}

fn claimed(coordinator: &mut RobotCoordinator) -> (Task, ZoneGuard) {
    match coordinator.claim_next_task().unwrap() {
        TaskClaim::Claimed { task, zone_guard } => (task, zone_guard),
        _ => panic!("the next task should be free to take"),
    }
}

#[test]
fn a_new_task_keeps_its_properties() {
    let task = Task::new(7, 3, 250, "Deliver");
    assert_eq!(task.id, 7);
    assert_eq!(task.zone, 3);
    assert_eq!(task.duration_ms, 250);
    assert_eq!(task.description, "Deliver");
    assert_eq!(task.clone(), task);
}

#[test]
fn a_new_robot_is_idle_and_heard_of() {
    let before = Instant::now();
    let robot = Robot::new(9, "Nine");
    assert_eq!(robot.id, 9);
    assert_eq!(robot.name, "Nine");
    assert_eq!(robot.status, RobotStatus::Idle);
    assert_eq!(robot.current_zone, None);
    assert_eq!(robot.tasks_completed, 0);
    assert!(robot.last_heartbeat >= before);
    assert!(!robot.is_timed_out());
}

#[test]
fn the_timeout_is_three_seconds() {
    let robot = Robot::new(1, "Robot");
    let beat = robot.last_heartbeat;
    assert!(!robot.is_timed_out_at(beat));
    assert!(!robot.is_timed_out_at(beat + Duration::from_secs(3)));
    assert!(robot.is_timed_out_at(beat + Duration::from_secs(3) + Duration::from_nanos(1)));
    // and it stays so
    assert!(robot.is_timed_out_at(beat + Duration::from_secs(3600)));
}

#[test]
fn an_instant_before_the_heartbeat_is_no_timeout() {
    let now = Instant::now();
    let mut robot = Robot::new(1, "Robot");
    robot.heartbeat_at(now + Duration::from_secs(10));
    assert!(!robot.is_timed_out_at(now));
}

#[test]
fn a_heartbeat_revives_only_an_offline_robot() {
    let mut robot = Robot::new(1, "Robot");
    let earlier = robot.last_heartbeat;
    robot.status = RobotStatus::Offline;
    robot.heartbeat();
    assert_eq!(robot.status, RobotStatus::Idle);
    assert!(robot.last_heartbeat >= earlier);

    robot.status = RobotStatus::Busy;
    let later = earlier + Duration::from_secs(9);
    robot.heartbeat_at(later);
    assert_eq!(robot.status, RobotStatus::Busy);
    assert_eq!(robot.last_heartbeat, later);
    assert!(!robot.is_timed_out_at(later + Duration::from_secs(3)));
    assert!(robot.is_timed_out_at(later + Duration::from_secs(4)));
}

#[test]
fn a_new_coordinator_is_empty() {
    let coordinator = RobotCoordinator::new(2);
    assert_eq!(coordinator.robot_count(), 0);
    assert_eq!(coordinator.queue_length(), 0);
    assert_eq!(coordinator.get_stats(), CoordinatorStats::default());
    assert!(!coordinator.is_zone_occupied(0));
    assert!(!coordinator.is_zone_occupied(1));
    assert!(!coordinator.is_monitoring());
}

#[test]
fn a_duplicate_robot_is_refused_by_name() {
    let mut coordinator = coordinator(1, &[12]);
    assert_eq!(
        coordinator.register_robot(Robot::new(12, "Other")),
        Err("Robot with ID 12 already exists".to_string())
    );
    assert_eq!(coordinator.robot_count(), 1);
    assert_eq!(coordinator.get_online_robots()[0].name, "Robot-12");
}

#[test]
fn tasks_leave_in_the_order_in_which_they_came() {
    let mut coordinator = coordinator(3, &[1]);
    coordinator.add_task(task(10, 0));
    coordinator.add_tasks(vec![task(11, 1), task(12, 2)]);
    assert_eq!(coordinator.get_stats().total_tasks_created, 3);
    let mut order = vec![];
    while let Some(task) = coordinator.request_task(1) {
        order.push(task.id);
    }
    assert_eq!(order, vec![10, 11, 12]);
    let robots = coordinator.get_online_robots();
    assert_eq!(robots[0].status, RobotStatus::Busy);
    assert_eq!(robots[0].current_zone, Some(2));
}

#[test]
fn no_task_for_an_unknown_or_offline_robot() {
    let mut coordinator = coordinator(1, &[1]);
    coordinator.add_task(task(10, 0));
    assert_eq!(coordinator.request_task(2), None);
    let later = Instant::now() + Duration::from_secs(10);
    assert_eq!(coordinator.check_heartbeats_at(later), vec![1]);
    assert_eq!(coordinator.request_task(1), None);
    assert_eq!(coordinator.queue_length(), 1);
    assert_eq!(
        refusal(coordinator.request_zone(1, 0)),
        "Robot 1 is offline"
    );
    assert_eq!(
        refusal(coordinator.dispatch_next_task(1)),
        "Robot 1 is offline"
    );
}

#[test]
fn completion_counts_once() {
    let mut coordinator = coordinator(1, &[1]);
    assert_eq!(
        coordinator.complete_task(2),
        Err("Robot 2 not found".to_string())
    );
    assert_eq!(
        coordinator.complete_task(1),
        Err("Robot 1 is not busy".to_string())
    );
    coordinator.add_task(task(10, 0));
    coordinator.request_task(1).unwrap();
    assert_eq!(coordinator.complete_task(1), Ok(()));
    assert_eq!(
        coordinator.complete_task(1),
        Err("Robot 1 is not busy".to_string())
    );
    let robot = &coordinator.get_online_robots()[0];
    assert_eq!(robot.status, RobotStatus::Idle);
    assert_eq!(robot.current_zone, None);
    assert_eq!(robot.tasks_completed, 1);
    assert_eq!(coordinator.get_stats().total_tasks_completed, 1);
}

#[test]
fn zone_requests_are_answered_and_counted() {
    let mut coordinator = coordinator(2, &[1, 2]);
    assert_eq!(
        refusal(coordinator.request_zone(1, 2)),
        "Zone 2 does not exist"
    );
    assert_eq!(
        refusal(coordinator.request_zone(7, 0)),
        "Robot 7 not found"
    );
    let guard = coordinator.request_zone(1, 0).unwrap();
    assert_eq!(guard.zone(), 0);
    assert!(coordinator.is_zone_occupied(0));
    assert!(!coordinator.is_zone_occupied(1));
    assert!(!coordinator.is_zone_occupied(2));
    assert_eq!(
        refusal(coordinator.request_zone(2, 0)),
        "Zone 0 is occupied"
    );
    // not even for the robot that holds it
    assert_eq!(
        refusal(coordinator.request_zone(1, 0)),
        "Zone 0 is occupied"
    );
    let stats = coordinator.get_stats();
    assert_eq!(stats.total_zone_access_attempts, 5);
    assert_eq!(stats.total_zone_access_grants, 1);
    assert_eq!(stats.total_zone_denials, 2);
    assert_eq!(coordinator.get_online_robots()[0].current_zone, Some(0));
    assert!(coordinator.leave_zone(guard, 1, 0));
    assert!(!coordinator.is_zone_occupied(0));
    assert_eq!(coordinator.get_online_robots()[0].current_zone, None);
    assert!(coordinator.request_zone(2, 0).is_ok());
}

#[test]
fn a_guard_is_taken_back_whatever_the_answer() {
    let mut coordinator = coordinator(2, &[1, 2]);
    for (robot_id, zone) in [(1, 5), (9, 0), (2, 0), (1, 1)] {
        let guard = coordinator.request_zone(1, 0).unwrap();
        assert!(!coordinator.leave_zone(guard, robot_id, zone));
        assert!(!coordinator.is_zone_occupied(0));
        assert_eq!(coordinator.get_online_robots()[0].current_zone, Some(0));
    }
}

#[test]
fn releasing_a_guard_frees_its_zone_only() {
    let mut coordinator = coordinator(2, &[1, 2]);
    let first = coordinator.request_zone(1, 0).unwrap();
    let second = coordinator.request_zone(2, 1).unwrap();
    coordinator.release_zone(first);
    assert!(!coordinator.is_zone_occupied(0));
    assert!(coordinator.is_zone_occupied(1));
    assert_eq!(coordinator.get_online_robots()[0].current_zone, Some(0));
    coordinator.release_zone(second);
    assert!(!coordinator.is_zone_occupied(1));
}

#[test]
fn dispatch_refuses_robots_that_cannot_work() {
    let mut coordinator = coordinator(1, &[1]);
    let now = Instant::now();
    assert_eq!(
        refusal(coordinator.dispatch_next_task(3)),
        "Robot 3 not found"
    );
    assert_eq!(
        coordinator.check_dispatch(3, now),
        Err("Robot 3 not found".to_string())
    );
    assert_eq!(coordinator.check_dispatch(1, now), Ok(()));
    // silent for too long, though not yet marked
    assert_eq!(
        coordinator.check_dispatch(1, now + Duration::from_secs(10)),
        Err("Robot 1 is offline".to_string())
    );
    coordinator.add_task(task(10, 0));
    coordinator.request_task(1).unwrap();
    assert_eq!(
        refusal(coordinator.dispatch_next_task(1)),
        "Robot 1 is already busy"
    );
    // the timeout comes before the task
    assert_eq!(
        coordinator.check_dispatch(1, now + Duration::from_secs(10)),
        Err("Robot 1 is offline".to_string())
    );
}

#[test]
fn dispatch_of_nothing() {
    let mut coordinator = coordinator(1, &[1]);
    assert!(matches!(
        coordinator.dispatch_next_task(1),
        Ok(DispatchOutcome::QueueEmpty)
    ));
    assert_eq!(coordinator.get_stats(), CoordinatorStats::default());
}

#[test]
fn a_task_for_a_missing_zone_stays_at_the_head() {
    let mut coordinator = coordinator(1, &[1]);
    coordinator.add_tasks(vec![task(10, 4), task(11, 0)]);
    assert_eq!(
        refusal(coordinator.dispatch_next_task(1)),
        "Zone 4 does not exist"
    );
    assert_eq!(coordinator.get_stats().total_zone_access_attempts, 0);
    assert_eq!(coordinator.queue_length(), 2);
    assert_eq!(coordinator.request_task(1).unwrap().id, 10);
}

#[test]
fn held_zones_give_way_to_a_free_one() {
    let mut coordinator = coordinator(3, &[1, 2]);
    coordinator.add_tasks(vec![task(10, 0), task(11, 1), task(12, 2), task(13, 0)]);
    let _zero = coordinator.request_zone(1, 0).unwrap();
    let _one = coordinator.request_zone(1, 1).unwrap();
    for expected in [10, 11] {
        match coordinator.dispatch_next_task(2).unwrap() {
            DispatchOutcome::ZoneBusy { task_id, .. } => assert_eq!(task_id, expected),
            _ => panic!("the zone is held"),
        }
    }
    let _two = match coordinator.dispatch_next_task(2).unwrap() {
        DispatchOutcome::Assigned { task, zone_guard } => {
            assert_eq!(task.id, 12);
            assert_eq!(zone_guard.zone(), 2);
            zone_guard
        }
        _ => panic!("zone 2 is free"),
    };
    assert!(coordinator.is_zone_occupied(2));
    // the others keep their order behind the rest
    let mut order = vec![];
    while let Some(task) = coordinator.request_task(1) {
        order.push(task.id);
    }
    assert_eq!(order, vec![13, 10, 11]);
    let stats = coordinator.get_stats();
    assert_eq!(stats.total_zone_access_attempts, 5);
    assert_eq!(stats.total_zone_access_grants, 3);
    assert_eq!(stats.total_zone_denials, 2);
}

#[test]
fn dispatched_work_is_carried_out() {
    let mut coordinator = coordinator(2, &[1]);
    coordinator.add_task(task(10, 1));
    let (task, guard) = match coordinator.dispatch_next_task(1).unwrap() {
        DispatchOutcome::Assigned { task, zone_guard } => (task, zone_guard),
        _ => panic!("zone 1 is free"),
    };
    let robot = &coordinator.get_online_robots()[0];
    assert_eq!(robot.status, RobotStatus::Busy);
    assert_eq!(robot.current_zone, Some(1));
    assert!(coordinator.leave_zone(guard, 1, task.zone as usize));
    assert_eq!(coordinator.complete_task(1), Ok(()));
    assert!(!coordinator.is_zone_occupied(1));
    assert_eq!(coordinator.idle_robot_count(), 1);
    assert_eq!(
        coordinator.get_stats(),
        CoordinatorStats {
            total_tasks_created: 1,
            total_tasks_completed: 1,
            total_zone_access_attempts: 1,
            total_zone_access_grants: 1,
            ..CoordinatorStats::default()
        }
    );
}

#[test]
fn a_claim_that_fails_is_undone() {
    let mut coordinator = coordinator(1, &[1]);
    coordinator.add_tasks(vec![task(10, 0), task(11, 0)]);
    let now = Instant::now();

    let (task, guard) = claimed(&mut coordinator);
    assert!(coordinator.is_zone_occupied(0));
    assert_eq!(coordinator.queue_length(), 1);
    let answer = coordinator.assign_claimed_task(1, task, guard, now + Duration::from_secs(10));
    assert_eq!(refusal(answer), "Robot 1 became offline");
    assert!(!coordinator.is_zone_occupied(0));
    assert_eq!(coordinator.queue_length(), 2);

    let (task, guard) = claimed(&mut coordinator);
    assert_eq!(task.id, 10);
    let answer = coordinator.assign_claimed_task(8, task, guard, now);
    assert_eq!(refusal(answer), "Robot 8 not found");
    assert_eq!(coordinator.queue_length(), 2);

    let (task, guard) = claimed(&mut coordinator);
    assert_eq!(coordinator.request_task(1).unwrap().id, 11);
    let answer = coordinator.assign_claimed_task(1, task, guard, now);
    assert_eq!(refusal(answer), "Robot 1 became busy");
    assert!(!coordinator.is_zone_occupied(0));
    assert_eq!(coordinator.complete_task(1), Ok(()));

    let (task, guard) = claimed(&mut coordinator);
    assert_eq!(task.id, 10);
    match coordinator.assign_claimed_task(1, task, guard, now) {
        Ok(DispatchOutcome::Assigned { task, zone_guard }) => {
            assert_eq!(task.id, 10);
            assert_eq!(zone_guard.zone(), 0);
        }
        _ => panic!("the robot is fit for work"),
    }
    let stats = coordinator.get_stats();
    assert_eq!(stats.total_zone_access_attempts, 4);
    assert_eq!(stats.total_zone_access_grants, 1);
    assert_eq!(stats.total_zone_denials, 0);
}

#[test]
fn an_offline_robot_that_claimed_is_refused() {
    let mut coordinator = coordinator(1, &[1]);
    coordinator.add_task(task(10, 0));
    let (task, guard) = claimed(&mut coordinator);
    let now = Instant::now();
    coordinator.check_heartbeats_at(now + Duration::from_secs(10));
    let answer = coordinator.assign_claimed_task(1, task, guard, now);
    assert_eq!(refusal(answer), "Robot 1 became offline");
}

#[test]
fn claims_of_a_held_or_missing_zone() {
    let mut coordinator = coordinator(1, &[1]);
    assert!(matches!(
        coordinator.claim_next_task(),
        Ok(TaskClaim::QueueEmpty)
    ));
    coordinator.add_tasks(vec![task(10, 0), task(11, 6)]);
    let _guard = coordinator.request_zone(1, 0).unwrap();
    match coordinator.claim_next_task() {
        Ok(TaskClaim::ZoneBusy { task_id, zone }) => {
            assert_eq!(task_id, 10);
            assert_eq!(zone, 0);
        }
        _ => panic!("the zone is held"),
    }
    assert_eq!(
        refusal(coordinator.claim_next_task()),
        "Zone 6 does not exist"
    );
}

#[test]
fn heartbeats_are_counted_for_known_robots() {
    let mut coordinator = coordinator(1, &[1]);
    assert!(coordinator.heartbeat(1));
    assert!(!coordinator.heartbeat(2));
    assert!(coordinator.heartbeat_at(1, Instant::now() + Duration::from_secs(60)));
    assert_eq!(coordinator.get_stats().total_heartbeats_received, 2);
}

#[test]
fn a_check_settles_who_is_offline() {
    let mut coordinator = coordinator(1, &[1, 2, 3]);
    let start = Instant::now();
    let _guard = coordinator.request_zone(2, 0).unwrap();
    coordinator.heartbeat_at(1, start + Duration::from_secs(5));
    let now = start + Duration::from_secs(8);
    assert_eq!(coordinator.check_heartbeats_at(now), vec![2, 3]);
    let offline = coordinator.get_offline_robots();
    assert_eq!(offline.len(), 2);
    assert_eq!(offline[0].id, 2);
    assert_eq!(offline[0].current_zone, None);
    assert_eq!(offline[1].id, 3);
    assert_eq!(coordinator.get_online_robots_at(now).len(), 1);
    // the zone itself stays held until its guard comes back
    assert!(coordinator.is_zone_occupied(0));
    // once noticed, a timeout is not noticed again
    assert_eq!(coordinator.check_heartbeats_at(now), Vec::<u32>::new());
    assert_eq!(coordinator.get_stats().total_timeouts_detected, 2);
    // a check at a time when they are in order brings them back
    assert_eq!(coordinator.check_heartbeats_at(start), Vec::<u32>::new());
    assert_eq!(coordinator.get_offline_robots().len(), 0);
    assert_eq!(coordinator.idle_robot_count_at(start), 3);
}

#[test]
fn a_sweep_brings_nobody_back() {
    let mut coordinator = coordinator(1, &[1, 2]);
    let start = Instant::now();
    coordinator.heartbeat_at(2, start + Duration::from_secs(9));
    let late = start + Duration::from_secs(10);
    assert_eq!(coordinator.sweep_heartbeats_at(late), vec![1]);
    assert_eq!(coordinator.sweep_heartbeats_at(late), Vec::<u32>::new());
    assert_eq!(coordinator.check_heartbeats_at(late), Vec::<u32>::new());
    assert_eq!(coordinator.sweep_heartbeats_at(start), Vec::<u32>::new());
    assert_eq!(coordinator.get_offline_robots().len(), 1);
    assert_eq!(coordinator.get_stats().total_timeouts_detected, 1);
    assert_eq!(coordinator.sweep_heartbeats(), Vec::<u32>::new());
}

#[test]
fn counts_look_at_the_clock() {
    let mut coordinator = coordinator(1, &[1, 2]);
    coordinator.add_task(task(10, 0));
    coordinator.request_task(2).unwrap();
    let now = Instant::now();
    assert_eq!(coordinator.idle_robot_count(), 1);
    assert_eq!(coordinator.idle_robot_count_at(now), 1);
    let late = now + Duration::from_secs(10);
    assert_eq!(coordinator.idle_robot_count_at(late), 0);
    assert_eq!(coordinator.get_online_robots_at(now).len(), 2);
    assert_eq!(coordinator.get_online_robots_at(late).len(), 0);
    assert_eq!(coordinator.get_offline_robots().len(), 0);
}

#[test]
fn monitoring_is_switched_on_and_off() {
    let mut coordinator = RobotCoordinator::new(1);
    coordinator.start_monitoring();
    assert!(coordinator.is_monitoring());
    coordinator.stop_monitoring();
    assert!(!coordinator.is_monitoring());
}

#[test]
fn a_report_counts_every_robot_once() {
    let mut coordinator = coordinator(2, &[1, 2, 3]);
    let start = Instant::now();
    coordinator.add_tasks(vec![task(10, 0), task(11, 1)]);
    coordinator.request_task(2).unwrap();
    coordinator.heartbeat_at(1, start + Duration::from_secs(9));
    coordinator.heartbeat_at(2, start + Duration::from_secs(9));
    let report = coordinator.status_report_at(start + Duration::from_secs(10));
    assert_eq!(
        report,
        StatusReport {
            queue_length: 1,
            total_robots: 3,
            online_robots: 2,
            offline_robots: 1,
            busy_robots: 1,
            idle_robots: 1,
            stats: CoordinatorStats {
                total_tasks_created: 2,
                total_heartbeats_received: 2,
                ..CoordinatorStats::default()
            },
        }
    );
    assert_eq!(
        report.to_text(),
        "===== Robot Coordinator Status Report =====\n\
         Task Queue Length: 1\n\
         Total Robots: 3\n\
         Online Robots: 2\n\
         Offline Robots: 1\n\
         Busy Robots: 1\n\
         Idle Robots: 1\n\
         \n\
         --- Statistics ---\n\
         Tasks Created: 2\n\
         Tasks Completed: 0\n\
         Zone Access Attempts: 0\n\
         Zone Access Grants: 0\n\
         Zone Denials: 0\n\
         Heartbeats Received: 2\n\
         Timeouts Detected: 0\n"
    );
    assert_eq!(coordinator.status_report().total_robots, 3);
}

#[test]
fn ten_tasks_over_three_zones_are_all_completed() {
    let mut coordinator = coordinator(5, &[0, 1, 2]);
    for i in 0..10 {
        coordinator.add_task(Task::new(100 + i, i % 3, 50, &format!("Task {}", i)));
    }
    let mut at_work: Vec<(u32, Task, ZoneGuard)> = vec![];
    let mut finished = vec![];
    loop {
        let mut handed_out = 0;
        for robot_id in 0..3 {
            coordinator.heartbeat(robot_id);
            match coordinator.dispatch_next_task(robot_id).unwrap() {
                DispatchOutcome::Assigned { task, zone_guard } => {
                    handed_out += 1;
                    at_work.push((robot_id, task, zone_guard));
                }
                DispatchOutcome::ZoneBusy { .. } => {}
                DispatchOutcome::QueueEmpty => {}
            }
        }
        if handed_out == 0 {
            break;
        }
        for (robot_id, task, guard) in at_work.drain(..) {
            assert!(coordinator.leave_zone(guard, robot_id, task.zone as usize));
            coordinator.complete_task(robot_id).unwrap();
            finished.push(task.id);
        }
    }
    finished.sort();
    assert_eq!(finished, (100..110).collect::<Vec<u32>>());
    let stats = coordinator.get_stats();
    assert_eq!(stats.total_tasks_created, 10);
    assert_eq!(stats.total_tasks_completed, 10);
    assert_eq!(stats.total_zone_access_grants, 10);
    assert_eq!(coordinator.queue_length(), 0);
    let by_robot: u32 = coordinator
        .get_online_robots()
        .iter()
        .map(|robot| robot.tasks_completed)
        .sum();
    assert_eq!(by_robot, 10);
}

#[test]
fn a_guard_goes_back_to_its_own_coordinator() {
    let mut first = coordinator(1, &[1]);
    let mut second = coordinator(1, &[1]);
    let held = first.request_zone(1, 0).unwrap();
    let foreign = second.request_zone(1, 0).unwrap();
    // the robot leaves the first, while the guard of the second goes back to the second
    assert!(first.record_departure(1, 0));
    second.release_zone(foreign);
    assert!(first.is_zone_occupied(0));
    assert_eq!(refusal(first.request_zone(1, 0)), "Zone 0 is occupied");
    assert!(!second.is_zone_occupied(0));
    first.release_zone(held);
    assert!(!first.is_zone_occupied(0));
}

#[test]
fn a_departure_is_recorded_once() {
    let mut coordinator = coordinator(2, &[1, 2]);
    let _guard = coordinator.request_zone(1, 0).unwrap();
    for (robot_id, zone) in [(1, 5), (9, 0), (2, 0), (1, 1)] {
        assert!(!coordinator.record_departure(robot_id, zone));
        assert_eq!(coordinator.get_online_robots()[0].current_zone, Some(0));
    }
    assert!(coordinator.record_departure(1, 0));
    assert_eq!(coordinator.get_online_robots()[0].current_zone, None);
    assert!(!coordinator.record_departure(1, 0));
    assert!(coordinator.is_zone_occupied(0));
}

#[test]
fn one_guard_per_zone_at_a_time() {
    let mut coordinator = coordinator(1, &[1, 2]);
    coordinator.add_task(task(10, 0));
    let guard = coordinator.request_zone(1, 0).unwrap();
    assert_eq!(refusal(coordinator.request_zone(2, 0)), "Zone 0 is occupied");
    assert!(matches!(
        coordinator.dispatch_next_task(2),
        Ok(DispatchOutcome::ZoneBusy { task_id: 10, zone: 0 })
    ));
    coordinator.release_zone(guard);
    let (_task, guard) = claimed(&mut coordinator);
    assert_eq!(refusal(coordinator.request_zone(2, 0)), "Zone 0 is occupied");
    coordinator.release_zone(guard);
    assert!(coordinator.request_zone(2, 0).is_ok());
}

#[test]
fn tasks_come_out_as_they_went_in_whoever_asks() {
    let mut coordinator = coordinator(3, &[1, 2]);
    let mut order = vec![];
    coordinator.add_task(task(10, 0));
    coordinator.add_tasks(vec![task(11, 9), task(12, 0)]);
    order.push(coordinator.request_task(2).unwrap().id);
    assert_eq!(coordinator.request_task(7), None);
    order.push(coordinator.request_task(1).unwrap().id);
    coordinator.add_task(task(13, 1));
    order.push(coordinator.request_task(1).unwrap().id);
    assert_eq!(coordinator.queue_length(), 1);
    order.push(coordinator.request_task(2).unwrap().id);
    assert_eq!(coordinator.request_task(2), None);
    assert_eq!(order, vec![10, 11, 12, 13]);
}

#[test]
fn every_attempt_is_accounted_for() {
    let mut coordinator = coordinator(2, &[1, 2]);
    coordinator.add_tasks(vec![task(10, 0), task(11, 1), task(12, 1)]);
    let now = Instant::now();
    let _held = coordinator.request_zone(1, 0).unwrap();
    refusal(coordinator.request_zone(2, 0));
    refusal(coordinator.request_zone(2, 4));
    refusal(coordinator.request_zone(8, 1));
    assert!(matches!(
        coordinator.dispatch_next_task(2),
        Ok(DispatchOutcome::ZoneBusy { .. })
    ));
    let (first, guard) = claimed(&mut coordinator);
    // one claim is open, two requests were refused for another reason than the zone
    let stats = coordinator.get_stats();
    assert_eq!(stats.total_zone_access_attempts, 6);
    assert_eq!(stats.total_zone_access_grants, 1);
    assert_eq!(stats.total_zone_denials, 2);
    refusal(coordinator.assign_claimed_task(2, first, guard, now + Duration::from_secs(10)));
    let stats = coordinator.get_stats();
    assert_eq!(stats.total_zone_access_attempts, 6);
    assert_eq!(stats.total_zone_access_grants, 1);
    assert_eq!(stats.total_zone_denials, 2);
}

#[test]
fn created_tasks_are_completed_at_work_claimed_or_waiting() {
    let mut coordinator = coordinator(4, &[1, 2]);
    coordinator.add_tasks(vec![task(10, 0), task(11, 1), task(12, 2), task(13, 3)]);
    match coordinator.dispatch_next_task(1).unwrap() {
        DispatchOutcome::Assigned { task, zone_guard } => {
            assert!(coordinator.leave_zone(zone_guard, 1, task.zone as usize));
            coordinator.complete_task(1).unwrap();
        }
        _ => panic!("zone 0 is free"),
    }
    let _busy = match coordinator.dispatch_next_task(2).unwrap() {
        DispatchOutcome::Assigned { zone_guard, .. } => zone_guard,
        _ => panic!("zone 1 is free"),
    };
    let (_task, _guard) = claimed(&mut coordinator);
    let stats = coordinator.get_stats();
    assert_eq!(stats.total_tasks_created, 4);
    assert_eq!(stats.total_tasks_completed, 1);
    assert_eq!(stats.total_zone_access_grants, 2);
    assert_eq!(coordinator.queue_length(), 1);
}

#[test]
fn a_worker_works_waits_or_stops() {
    let mut coordinator = coordinator(1, &[1, 2]);
    coordinator.add_tasks(vec![Task::new(10, 0, 70, "work"), task(11, 0)]);
    match coordinator.dispatch_next_task(1).unwrap().into_step(10) {
        WorkerStep::Work {
            duration_ms,
            zone,
            zone_guard,
        } => {
            assert_eq!(duration_ms, 70);
            assert_eq!(zone, 0);
            assert!(matches!(
                coordinator.dispatch_next_task(2).unwrap().into_step(10),
                WorkerStep::Wait { pause_ms: 10 }
            ));
            assert!(coordinator.leave_zone(zone_guard, 1, zone));
        }
        _ => panic!("zone 0 is free"),
    }
    coordinator.request_task(2).unwrap();
    coordinator.complete_task(1).unwrap();
    assert!(matches!(
        coordinator.dispatch_next_task(1).unwrap().into_step(10),
        WorkerStep::Stop
    ));
}

#[test]
fn a_second_check_finds_nothing_until_someone_falls_silent() {
    let mut coordinator = coordinator(1, &[1, 2, 3]);
    let start = Instant::now();
    coordinator.heartbeat_at(1, start + Duration::from_secs(8));
    let now = start + Duration::from_secs(9);
    assert_eq!(coordinator.check_heartbeats_at(now), vec![2, 3]);
    let stats = coordinator.get_stats();
    // later, but not so late that robot 1 has timed out too
    let later = start + Duration::from_secs(11);
    assert_eq!(coordinator.check_heartbeats_at(later), Vec::<u32>::new());
    assert_eq!(coordinator.get_stats(), stats);
    let ids = |robots: Vec<Robot>| robots.iter().map(|robot| robot.id).collect::<Vec<u32>>();
    assert_eq!(ids(coordinator.get_offline_robots()), vec![2, 3]);
    assert_eq!(ids(coordinator.get_online_robots_at(later)), vec![1]);
    let much_later = start + Duration::from_secs(12);
    assert_eq!(coordinator.check_heartbeats_at(much_later), vec![1]);
}

#[test]
fn robots_are_the_accepted_registrations() {
    let mut coordinator = RobotCoordinator::new(1);
    let mut accepted = 0;
    for id in [4, 5, 4, 6, 5] {
        if coordinator.register_robot(Robot::new(id, "Robot")).is_ok() {
            accepted += 1;
        }
        assert_eq!(coordinator.robot_count(), accepted);
    }
    assert_eq!(accepted, 3);
}

#[test]
fn a_batch_is_its_tasks_one_by_one() {
    let mut batch = coordinator(2, &[1]);
    let mut single = coordinator(2, &[1]);
    batch.add_tasks(vec![task(10, 0), task(11, 1), task(12, 0)]);
    for (id, zone) in [(10, 0), (11, 1), (12, 0)] {
        single.add_task(task(id, zone));
    }
    assert_eq!(batch.get_stats(), single.get_stats());
    assert_eq!(batch.queue_length(), 3);
    for _ in 0..4 {
        assert_eq!(batch.request_task(1), single.request_task(1));
    }
}

#[test]
fn totals_have_room() {
    let mut coordinator = coordinator(1, &[1, 2]);
    let mut veteran = Robot::new(3, "Veteran");
    veteran.status = RobotStatus::Busy;
    veteran.tasks_completed = u32::MAX;
    coordinator.register_robot(veteran).unwrap();
    assert!(coordinator.claim_fits());
    coordinator.add_task(task(10, 0));
    assert!(coordinator.claim_fits());
    assert!(coordinator.completion_fits(1));
    assert!(coordinator.completion_fits(9));
    // a robot whose own count is full cannot complete another task
    assert!(!coordinator.completion_fits(3));
    assert!(coordinator.heartbeat_fits(1));
    assert!(coordinator.heartbeat_fits(9));
    assert!(coordinator.timeouts_fit_at(Instant::now() + Duration::from_secs(10)));
}

#[test]
fn a_reading_is_taken_when_it_is_needed() {
    let mut coordinator = coordinator(1, &[1]);
    let before = Instant::now();
    coordinator.heartbeat(1);
    let beat = coordinator.get_online_robots()[0].last_heartbeat;
    assert!(before <= beat && beat <= Instant::now());
}
