//! No task is lost, none is handed out twice, and they leave in order.
use crate::model::CoordinatorState;
use crate::task::Task;
use crate::trace;
use crate::trace::Event;
use vstd::multiset::Multiset;
use vstd::prelude::*;

verus! {

proof fn lemma_first_apart(queue: Seq<Task>)
    requires
        queue.len() > 0,
    ensures
        queue.to_multiset() =~= queue.drop_first().to_multiset().insert(queue[0]),
{
    assert(queue =~= seq![queue[0]] + queue.drop_first());
    lemma_prepended(queue[0], queue.drop_first());
}

proof fn lemma_prepended(task: Task, queue: Seq<Task>)
    ensures
        (seq![task] + queue).to_multiset() =~= queue.to_multiset().insert(task),
{
    vstd::seq_lib::lemma_multiset_commutative(seq![task], queue);
    queue.to_multiset_ensures();
    Seq::<Task>::empty().to_multiset_ensures();
}

/// An operation loses no task and makes none up: what waits afterwards and what was handed out is
/// what waited before, what was added and what was sent back.
#[verifier::rlimit(40)]
pub proof fn law_no_task_is_lost(state: CoordinatorState, event: Event)
    ensures
        state.after(event).queue.to_multiset().add(state.handed_out(event))
            == state.queue.to_multiset().add(state.added(event)).add(state.returned(event)),
{
    let queue = state.queue;
    queue.to_multiset_ensures();
    if queue.len() > 0 {
        lemma_first_apart(queue);
        queue.drop_first().to_multiset_ensures();
    }
    match event {
        Event::AddTasks(tasks) => {
            vstd::seq_lib::lemma_multiset_commutative(queue, tasks);
        },
        Event::Assign { robot_id, task, now } => {
            lemma_prepended(task, queue);
        },
        _ => {},
    }
    assert(state.after(event).queue.to_multiset().add(state.handed_out(event))
        =~= queue.to_multiset().add(state.added(event)).add(state.returned(event)));
}

/// Over any sequence of operations, what waits at the end and all that was handed out is what
/// waited at the start, all that was added and all that was sent back.
pub proof fn law_no_task_is_ever_lost(state: CoordinatorState, events: Seq<Event>)
    ensures
        state.after_all(events).queue.to_multiset().add(state.all_handed_out(events))
            == state.queue.to_multiset().add(state.all_added(events)).add(
            state.all_returned(events),
        ),
    decreases events.len(),
{
    let start = state.queue.to_multiset();
    if events.len() > 0 {
        let earlier = events.drop_last();
        let last = events.last();
        let middle = state.after_all(earlier);
        law_no_task_is_ever_lost(state, earlier);
        law_no_task_is_lost(middle, last);
        let waiting = middle.queue.to_multiset();
        let out = state.all_handed_out(earlier);
        let fresh = middle.added(last).add(middle.returned(last));
        assert(middle.after(last).queue.to_multiset().add(state.all_handed_out(events))
            =~= middle.after(last).queue.to_multiset().add(middle.handed_out(last)).add(out));
        assert(waiting.add(middle.added(last)).add(middle.returned(last)).add(out) =~= waiting.add(
            out,
        ).add(fresh));
        assert(start.add(state.all_added(events)).add(state.all_returned(events)) =~= start.add(
            state.all_added(earlier),
        ).add(state.all_returned(earlier)).add(fresh));
    } else {
        assert(start.add(Multiset::empty()).add(Multiset::empty()) =~= start.add(
            Multiset::empty(),
        ));
    }
}

/// First in, first out: where no zone is tried, and tasks are added and asked for by whatever robots
/// in whatever turn, they are handed out in the order in which they were added, behind those that
/// waited at the start. None is passed over and none is handed out twice; the rest wait in that
/// order.
pub proof fn law_first_in_first_out(state: CoordinatorState, events: Seq<Event>)
    requires
        forall|i: int| 0 <= i < events.len() ==> (#[trigger] events[i]).keeps_queue_order(),
    ensures
        ({
            let all = state.queue + trace::added_in_order(events);
            let taken = state.taken_in_order(events);
            let end = state.after_all(events);
            &&& taken.len() <= all.len()
            &&& taken == all.take(taken.len() as int)
            &&& end.queue == all.skip(taken.len() as int)
            &&& end.queue.len() == all.len() - taken.len()
        }),
    decreases events.len(),
{
    if events.len() > 0 {
        law_first_in_first_out(state, events.drop_last());
    }
}

/// `tasks` added one at a time.
pub open spec fn one_by_one(tasks: Seq<Task>) -> Seq<Event> {
    tasks.map_values(|task: Task| Event::AddTask(task))
}

/// A batch of tasks leaves what its tasks leave when they are added one at a time, in their order,
/// as long as the batch is small enough to be counted.
pub proof fn law_batch_is_one_by_one(state: CoordinatorState, tasks: Seq<Task>)
    requires
        tasks.len() <= u32::MAX,
        state.admits(Event::AddTasks(tasks)),
    ensures
        state.admits_all(one_by_one(tasks)),
        state.after_all(one_by_one(tasks)) == state.tasks_added(tasks),
    decreases tasks.len(),
{
    if tasks.len() > 0 {
        let fewer = tasks.drop_last();
        law_batch_is_one_by_one(state, fewer);
        assert(one_by_one(tasks).drop_last() =~= one_by_one(fewer));
    }
}

} // verus!
