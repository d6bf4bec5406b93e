use crate::world::{timer_report, timers_after_query, TimersView, WorldTimer};
use vstd::prelude::*;

verus! {

/// A timer that does not repeat is consumed by the query that finds it
/// elapsed: on the next query, whenever it comes, there is no such timer,
/// and asking changes nothing any more.
pub proof fn one_shot_timer_is_consumed(timers: TimersView, key: Seq<char>, now: u64, later: u64)
    requires
        timers.contains_key(key),
        !timers[key].repeat,
        timer_report(timers, key, now) == Some(true),
    ensures
        timer_report(timers_after_query(timers, key, now), key, later).is_none(),
        timers_after_query(timers_after_query(timers, key, now), key, later) == timers_after_query(
            timers,
            key,
            now,
        ),
{
}

/// A query that does not find its timer elapsed changes nothing, and a query
/// for a key without a timer changes nothing either.
pub proof fn idle_query_changes_nothing(timers: TimersView, key: Seq<char>, now: u64)
    ensures
        timer_report(timers, key, now) != Some(true) ==> timers_after_query(timers, key, now)
            == timers,
        timer_report(timers, key, now).is_none() <==> !timers.contains_key(key),
{
}

/// A repeating timer survives the query that finds it elapsed at `now`, and
/// starts over from there: until its duration has passed again it is found
/// not yet elapsed and stays as it is, and from then on it is found elapsed.
pub proof fn repeating_timer_starts_over(timers: TimersView, key: Seq<char>, now: u64, later: u64)
    requires
        timers.contains_key(key),
        timers[key].repeat,
        timer_report(timers, key, now) == Some(true),
        later >= now,
    ensures
        timers_after_query(timers, key, now).contains_key(key),
        timers_after_query(timers, key, now)[key] == (WorldTimer { instant: now, ..timers[key] }),
        later - now < timers[key].duration ==> timer_report(
            timers_after_query(timers, key, now),
            key,
            later,
        ) == Some(false) && timers_after_query(timers_after_query(timers, key, now), key, later)
            == timers_after_query(timers, key, now),
        later - now >= timers[key].duration ==> timer_report(
            timers_after_query(timers, key, now),
            key,
            later,
        ) == Some(true),
{
}

/// The timers after the one under `key` was queried `cycles` times, each
/// time at the very moment at which it falls due.
pub open spec fn after_cycles(timers: TimersView, key: Seq<char>, cycles: nat) -> TimersView
    decreases cycles,
{
    if cycles == 0 {
        timers
    } else {
        let before = after_cycles(timers, key, (cycles - 1) as nat);
        timers_after_query(before, key, (before[key].instant + before[key].duration) as u64)
    }
}

/// A repeating timer keeps its period over any number of cycles: queried
/// each time it falls due, it is found elapsed each time, is then due one
/// duration later, and is found not yet elapsed at every moment before that.
pub proof fn repeating_timer_is_periodic(timers: TimersView, key: Seq<char>, cycles: nat)
    requires
        timers.contains_key(key),
        timers[key].repeat,
        timers[key].instant + (cycles + 1) * timers[key].duration <= u64::MAX,
    ensures
        after_cycles(timers, key, cycles).contains_key(key),
        after_cycles(timers, key, cycles)[key] == (WorldTimer {
            instant: (timers[key].instant + cycles * timers[key].duration) as u64,
            ..timers[key]
        }),
        timer_report(
            after_cycles(timers, key, cycles),
            key,
            (timers[key].instant + (cycles + 1) * timers[key].duration) as u64,
        ) == Some(true),
        forall|moment: u64|
            timers[key].instant + cycles * timers[key].duration <= moment < timers[key].instant + (
            cycles + 1) * timers[key].duration ==> #[trigger] timer_report(
                after_cycles(timers, key, cycles),
                key,
                moment,
            ) == Some(false),
    decreases cycles,
{
    let start = timers[key].instant as int;
    let period = timers[key].duration as int;
    assert((cycles + 1) * period == cycles * period + period) by (nonlinear_arith);
    assert(cycles * period >= 0) by (nonlinear_arith)
        requires
            cycles >= 0,
            period >= 0,
    ;
    if cycles > 0 {
        let fewer = (cycles - 1) as nat;
        assert((fewer + 1) * period == cycles * period) by (nonlinear_arith)
            requires
                fewer + 1 == cycles,
        ;
        assert(fewer * period + period == cycles * period) by (nonlinear_arith)
            requires
                fewer + 1 == cycles,
        ;
        assert(fewer * period >= 0) by (nonlinear_arith)
            requires
                fewer >= 0,
                period >= 0,
        ;
        repeating_timer_is_periodic(timers, key, fewer);
        let before = after_cycles(timers, key, fewer);
        assert(before[key].instant == start + fewer * period);
        assert(before[key].duration == period);
        let due = (before[key].instant + before[key].duration) as u64;
        assert(due == start + cycles * period);
        assert(timer_report(before, key, due) == Some(true));
        assert(after_cycles(timers, key, cycles) == timers_after_query(before, key, due));
        assert(after_cycles(timers, key, cycles)[key].instant == due);
    }
    let now = after_cycles(timers, key, cycles);
    if cycles == 0 {
        assert(cycles * period == 0) by (nonlinear_arith)
            requires
                cycles == 0,
        ;
    }
    assert(now[key].instant == start + cycles * period);
    assert forall|moment: u64|
        start + cycles * period <= moment < start + (cycles + 1) * period implies #[trigger] timer_report(
        now,
        key,
        moment,
    ) == Some(false) by {
        assert(moment - now[key].instant < period);
    }
}

} // verus!
