//! Calls that make robots, tasks and texts, and that read numbers.
use crate::clock;
use crate::laws::calls;
use crate::numerals;
use crate::robot::{Robot, RobotStatus};
use crate::task::Task;
use crate::text;
use crate::zone::ZoneGuard;
use std::time::Instant;
use vstd::prelude::*;

verus! {

/// A new robot has the identifier and the name that it was given, is idle in no zone, has completed
/// nothing, and was last heard of at a reading of the clock.
pub proof fn law_new_robot(id: u32, name: &str, robot: Robot)
    requires
        call_ensures(Robot::new, (id, name), robot),
    ensures
        robot.id == id,
        robot.name@ == name@,
        robot.status == RobotStatus::Idle,
        robot.current_zone == None::<u32>,
        robot.tasks_completed == 0,
        clock::is_reading(robot.last_heartbeat),
{
}

/// A new task has what it was given.
pub proof fn law_new_task(id: u32, zone: u32, duration_ms: u64, description: &str, task: Task)
    requires
        call_ensures(Task::new, (id, zone, duration_ms, description), task),
    ensures
        task.id == id,
        task.zone == zone,
        task.duration_ms == duration_ms,
        task.description@ == description@,
{
}

/// A copy of a robot or of a task is what it was copied from.
pub proof fn law_copies_are_equal(robot: Robot, other: Robot, task: Task, same: Task)
    requires
        call_ensures(<Robot as Clone>::clone, (&robot,), other),
        call_ensures(<Task as Clone>::clone, (&task,), same),
    ensures
        other == robot,
        same == task,
{
}

/// A heartbeat moves the last heartbeat, and wakes a robot that was offline; a robot that is at work
/// stays at work.
pub proof fn law_robot_heartbeat_at(robot: &mut Robot, now: Instant)
    requires
        call_ensures(Robot::heartbeat_at, (robot, now), ()),
    ensures
        *final(robot) == (Robot {
            last_heartbeat: now,
            status: if old(robot).status == RobotStatus::Offline {
                RobotStatus::Idle
            } else {
                old(robot).status
            },
            ..*old(robot)
        }),
{
}

/// The same at a reading of the clock.
pub proof fn law_robot_heartbeat(robot: &mut Robot)
    requires
        call_ensures(Robot::heartbeat, (robot,), ()),
    ensures
        clock::is_reading(final(robot).last_heartbeat),
        *final(robot) == (Robot {
            last_heartbeat: final(robot).last_heartbeat,
            status: if old(robot).status == RobotStatus::Offline {
                RobotStatus::Idle
            } else {
                old(robot).status
            },
            ..*old(robot)
        }),
{
}

/// A robot has timed out exactly if it has been silent for more than three seconds, whatever it is
/// doing.
pub proof fn law_is_timed_out_at(robot: Robot, now: Instant, timed_out: bool)
    requires
        call_ensures(Robot::is_timed_out_at, (&robot, now), timed_out),
    ensures
        timed_out <==> calls::is_silent(robot, now),
{
}

/// The same at a reading of the clock.
pub proof fn law_is_timed_out(robot: Robot, timed_out: bool)
    requires
        call_ensures(Robot::is_timed_out, (&robot,), timed_out),
    ensures
        exists|now: Instant|
            #[trigger] clock::is_reading(now) && timed_out == calls::is_silent(robot, now),
{
    let now = choose|now: Instant|
        clock::is_reading(now) && timed_out == #[trigger] robot.timed_out_at(now);
    assert(clock::is_reading(now));
}

/// A guard tells the zone that it holds.
pub proof fn law_guard_tells_its_zone(guard: ZoneGuard, zone: usize)
    requires
        call_ensures(ZoneGuard::zone, (&guard,), zone),
    ensures
        zone == guard.held_zone(),
{
}

/// A number below ten is written as its digit, any other as the number without its last digit and
/// then that digit.
pub proof fn law_decimal(n: nat)
    ensures
        n < 10 ==> text::decimal(n).len() == 1 && text::decimal(n)[0] as nat == 48 + n,
        n >= 10 ==> {
            &&& text::decimal(n).len() > 1
            &&& text::decimal(n).drop_last() == text::decimal(n / 10)
            &&& text::decimal(n).last() as nat == 48 + n % 10
        },
{
    if n >= 10 {
        assert(text::decimal(n).drop_last() =~= text::decimal(n / 10));
        assert(text::decimal(n / 10).len() > 0);
    }
}

/// A message with a number holds the text before it, the number and the text behind it; a number is
/// appended as it is written.
pub proof fn law_numbered_message(
    before: &str,
    n: u64,
    after: &str,
    message: String,
    out: &mut String,
)
    requires
        call_ensures(text::numbered_message, (before, n, after), message),
        call_ensures(text::push_decimal, (out, n), ()),
    ensures
        message@ == before@ + text::decimal(n as nat) + after@,
        final(out)@ == old(out)@ + text::decimal(n as nat),
{
}

/// Whether `c` is one of the ten digits.
pub open spec fn is_digit(c: char) -> bool {
    48 <= c as nat <= 57
}

proof fn lemma_appended(text: Seq<char>, c: char)
    ensures
        text.len() > 0 && text[0] == '+' ==> text.push(c).drop_first() =~= text.drop_first().push(c),
        text.push(c).drop_last() =~= text,
        text.len() > 1 ==> text.drop_first().push(c).drop_last() =~= text.drop_first(),
{
}

/// A text is read from the left: with one more digit it stands for ten times the number and the
/// digit; with one more character of any other kind, for none.
pub proof fn law_digit_is_appended(text: Seq<char>, c: char, n: nat)
    requires
        numerals::unsigned_value(text) == Some(n),
    ensures
        is_digit(c) ==> numerals::unsigned_value(text.push(c)) == Some(
            (n * 10 + (c as nat - 48)) as nat,
        ),
        !is_digit(c) ==> numerals::unsigned_value(text.push(c)) is None,
{
    let digits = numerals::without_plus(text);
    let longer = numerals::without_plus(text.push(c));
    lemma_appended(text, c);
    assert(longer =~= digits.push(c));
    assert(longer.drop_last() =~= digits);
    if is_digit(c) {
        assert forall|i: int| 0 <= i < longer.len() implies numerals::is_digit(
            #[trigger] longer[i],
        ) by {
            if i < digits.len() {
                assert(longer[i] == digits[i]);
            }
        }
    } else {
        assert(!numerals::is_digit(longer[longer.len() - 1]));
    }
}

/// A single character stands for a number exactly if it is a digit, and then for that digit. The
/// empty text stands for none.
pub proof fn law_single_character(c: char)
    ensures
        is_digit(c) ==> numerals::unsigned_value(seq![c]) == Some((c as nat - 48) as nat),
        !is_digit(c) ==> numerals::unsigned_value(seq![c]) is None,
        numerals::unsigned_value(Seq::<char>::empty()) is None,
{
    if is_digit(c) {
        assert(seq![c].drop_last() =~= Seq::<char>::empty());
        assert(numerals::digits_value(seq![c].drop_last()) == 0);
    } else if c != '+' {
        assert(!numerals::is_digit(numerals::without_plus(seq![c])[0]));
    }
}

/// A text of more than one character that stands for no number when its last is left out stands for
/// none with it, unless it is a plus sign and a digit, which stands for the digit.
pub proof fn law_mistake_stays(text: Seq<char>, c: char)
    requires
        text.len() > 0,
        numerals::unsigned_value(text) is None,
    ensures
        text == seq!['+'] && is_digit(c) ==> numerals::unsigned_value(text.push(c)) == Some(
            (c as nat - 48) as nat,
        ),
        !(text == seq!['+'] && is_digit(c)) ==> numerals::unsigned_value(text.push(c)) is None,
{
    let digits = numerals::without_plus(text);
    let longer = numerals::without_plus(text.push(c));
    lemma_appended(text, c);
    assert(longer =~= digits.push(c));
    if digits.len() == 0 {
        assert(text =~= seq!['+']);
        assert(longer =~= seq![c]);
        law_single_character(c);
        assert(numerals::digits_value(longer.drop_last()) == 0);
        if !is_digit(c) {
            assert(!numerals::is_digit(longer[0]));
        }
    } else {
        let i = choose|i: int| 0 <= i < digits.len() && !numerals::is_digit(#[trigger] digits[i]);
        assert(!numerals::is_digit(longer[i]));
        if text == seq!['+'] {
            assert(digits.len() == 0);
        }
    }
}

/// A text is read as the number that it stands for, if it stands for one below two to the power of
/// sixty-four, and as none otherwise.
pub proof fn law_parse_unsigned(text: &str, number: Option<u64>)
    requires
        call_ensures(numerals::parse_unsigned, (text,), number),
    ensures
        number matches Some(n) ==> numerals::unsigned_value(text@) == Some(n as nat),
        number is None <==> (numerals::unsigned_value(text@) is None || numerals::unsigned_value(
            text@,
        )->0 >= 0x1_0000_0000_0000_0000),
{
}

} // verus!
