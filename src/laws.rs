//! What holds of whole runs, over every sequence of outcomes.

use vstd::prelude::*;

use crate::matcher::{first_index_of, matched_entry};
use crate::session::{default_position, next, opening, Event, Phase, Step};

verus! {

/// The steps a run takes from `phase` as `events` come in, one step each.
pub open spec fn run(ids: Seq<Seq<char>>, default_id: Seq<char>, phase: Phase, events: Seq<Event>) -> Seq<
    Step,
>
    decreases events.len(),
{
    if events.len() == 0 {
        Seq::<Step>::empty()
    } else {
        let (p, s) = next(ids, default_id, phase, events[0]);
        seq![s] + run(ids, default_id, p, events.drop_first())
    }
}

/// How many times `s` occurs in `steps`.
pub open spec fn occurrences(steps: Seq<Step>, s: Step) -> nat
    decreases steps.len(),
{
    if steps.len() == 0 {
        0
    } else {
        (if steps[0] == s {
            1nat
        } else {
            0nat
        }) + occurrences(steps.drop_first(), s)
    }
}

/// Whether `s` does not occur in `steps`.
pub open spec fn avoids(steps: Seq<Step>, s: Step) -> bool {
    forall|k: int| 0 <= k < steps.len() ==> steps[k] != s
}

proof fn lemma_cons(a: Step, rest: Seq<Step>)
    ensures
        (seq![a] + rest).drop_first() == rest,
        (seq![a] + rest)[0] == a,
        (seq![a] + rest).len() == rest.len() + 1,
{
    assert((seq![a] + rest).drop_first() =~= rest);
}

proof fn lemma_avoids_cons(a: Step, rest: Seq<Step>, s: Step)
    requires
        a != s,
        avoids(rest, s),
    ensures
        avoids(seq![a] + rest, s),
{
    assert forall|k: int| 0 <= k < (seq![a] + rest).len() implies (seq![a] + rest)[k] != s by {
        if k > 0 {
            assert((seq![a] + rest)[k] == rest[k - 1]);
        }
    }
}

proof fn lemma_avoids_none(steps: Seq<Step>, s: Step)
    requires
        avoids(steps, s),
    ensures
        occurrences(steps, s) == 0,
    decreases steps.len(),
{
    if steps.len() > 0 {
        assert(avoids(steps.drop_first(), s)) by {
            assert forall|k: int| 0 <= k < steps.drop_first().len() implies steps.drop_first()[k]
                != s by {
                assert(steps.drop_first()[k] == steps[k + 1]);
            }
        }
        lemma_avoids_none(steps.drop_first(), s);
    }
}

/// Once a run is done, each further outcome is met with the end of the run.
proof fn lemma_done_only_finishes(ids: Seq<Seq<char>>, default_id: Seq<char>, events: Seq<Event>)
    ensures
        forall|k: int|
            0 <= k < run(ids, default_id, Phase::Done, events).len() ==> #[trigger] run(
                ids,
                default_id,
                Phase::Done,
                events,
            )[k] == Step::Finish,
    decreases events.len(),
{
    if events.len() > 0 {
        lemma_done_only_finishes(ids, default_id, events.drop_first());
        let rest = run(ids, default_id, Phase::Done, events.drop_first());
        assert forall|k: int| 0 <= k < (seq![Step::Finish] + rest).len() implies (seq![Step::Finish]
            + rest)[k] == Step::Finish by {
            if k > 0 {
                assert((seq![Step::Finish] + rest)[k] == rest[k - 1]);
            }
        }
    }
}

/// From the restart prompt on, a run sets no default, shows no entry
/// chooser, and restarts at most once; from a restart on, it prompts no more
/// and restarts no more.
proof fn lemma_after_choice(ids: Seq<Seq<char>>, default_id: Seq<char>, phase: Phase, events: Seq<Event>)
    requires
        phase == Phase::ConfirmingReboot || phase == Phase::Rebooting || phase == Phase::Done,
    ensures
        avoids(run(ids, default_id, phase, events), Step::SetDefault),
        avoids(run(ids, default_id, phase, events), Step::ChooseEntry),
        phase != Phase::ConfirmingReboot ==> avoids(
            run(ids, default_id, phase, events),
            Step::ConfirmReboot,
        ),
        occurrences(run(ids, default_id, phase, events), Step::Reboot) <= if phase
            == Phase::ConfirmingReboot {
            1nat
        } else {
            0nat
        },
    decreases events.len(),
{
    if events.len() > 0 {
        let (p, s) = next(ids, default_id, phase, events[0]);
        let rest = run(ids, default_id, p, events.drop_first());
        lemma_after_choice(ids, default_id, p, events.drop_first());
        lemma_cons(s, rest);
        lemma_avoids_cons(s, rest, Step::SetDefault);
        lemma_avoids_cons(s, rest, Step::ChooseEntry);
        if phase != Phase::ConfirmingReboot {
            lemma_avoids_cons(s, rest, Step::ConfirmReboot);
        }
        if p != Phase::ConfirmingReboot {
            lemma_avoids_cons(s, rest, Step::ConfirmReboot);
        }
    }
}

/// A name that matches an entry switches to it and restarts unattended:
/// whatever comes of each action, the run never shows either prompt, sets
/// the default at most once and only where the entry is not the default
/// already, and restarts at most once; where every action succeeds it
/// restarts exactly once.
pub proof fn lemma_matched_target_restarts_unattended(
    ids: Seq<Seq<char>>,
    names: Seq<Seq<char>>,
    default_id: Seq<char>,
    target: Seq<char>,
    events: Seq<Event>,
)
    requires
        names.len() == ids.len(),
        matched_entry(target, names) is Some,
    ensures
        ({
            let i = matched_entry(target, names)->Some_0;
            let (p, first) = opening(ids, default_id, Some(i));
            let steps = seq![first] + run(ids, default_id, p, events);
            &&& avoids(steps, Step::ChooseEntry)
            &&& avoids(steps, Step::ConfirmReboot)
            &&& occurrences(steps, Step::Reboot) <= 1
            &&& occurrences(steps, Step::SetDefault) == if ids[i] != default_id {
                1nat
            } else {
                0nat
            }
            &&& ids[i] != default_id ==> seq![first] + run(
                ids,
                default_id,
                p,
                seq![Event::DefaultCommitted(true), Event::RebootAttempted],
            ) == seq![Step::SetDefault, Step::Reboot, Step::Finish]
            &&& ids[i] == default_id ==> seq![first] + run(
                ids,
                default_id,
                p,
                seq![Event::RebootAttempted],
            ) == seq![Step::Reboot, Step::Finish]
        }),
{
    let i = matched_entry(target, names)->Some_0;
    let (p, first) = opening(ids, default_id, Some(i));
    let rest = run(ids, default_id, p, events);
    lemma_cons(first, rest);
    let steps = seq![first] + rest;
    assert(occurrences(steps, Step::Reboot) == (if first == Step::Reboot {
        1nat
    } else {
        0nat
    }) + occurrences(rest, Step::Reboot));
    assert(occurrences(steps, Step::SetDefault) == (if first == Step::SetDefault {
        1nat
    } else {
        0nat
    }) + occurrences(rest, Step::SetDefault));
    if ids[i] != default_id {
        if events.len() > 0 {
            let (q, s) = next(ids, default_id, p, events[0]);
            let tail = run(ids, default_id, q, events.drop_first());
            lemma_after_choice(ids, default_id, q, events.drop_first());
            lemma_cons(s, tail);
            lemma_avoids_cons(s, tail, Step::ChooseEntry);
            lemma_avoids_cons(s, tail, Step::ConfirmReboot);
            lemma_avoids_cons(s, tail, Step::SetDefault);
            lemma_avoids_none(tail, Step::SetDefault);
            assert(occurrences(rest, Step::SetDefault) == 0);
            assert(occurrences(rest, Step::Reboot) <= 1);
        } else {
            assert(rest =~= Seq::<Step>::empty());
        }
        lemma_avoids_cons(first, rest, Step::ChooseEntry);
        lemma_avoids_cons(first, rest, Step::ConfirmReboot);
        let script = seq![Event::DefaultCommitted(true), Event::RebootAttempted];
        assert(script.drop_first() =~= seq![Event::RebootAttempted]);
        assert(seq![Event::RebootAttempted].drop_first() =~= Seq::<Event>::empty());
        let last = run(ids, default_id, Phase::Done, Seq::<Event>::empty());
        assert(last =~= Seq::<Step>::empty());
        let second = run(ids, default_id, Phase::Rebooting, seq![Event::RebootAttempted]);
        assert(second == seq![Step::Finish] + last);
        assert(run(ids, default_id, p, script) == seq![Step::Reboot] + second);
        assert(seq![first] + run(ids, default_id, p, script) =~= seq![
            Step::SetDefault,
            Step::Reboot,
            Step::Finish,
        ]);
    } else {
        lemma_after_choice(ids, default_id, p, events);
        lemma_avoids_none(rest, Step::SetDefault);
        lemma_avoids_cons(first, rest, Step::ChooseEntry);
        lemma_avoids_cons(first, rest, Step::ConfirmReboot);
        assert(seq![Event::RebootAttempted].drop_first() =~= Seq::<Event>::empty());
        let last = run(ids, default_id, Phase::Done, Seq::<Event>::empty());
        assert(last =~= Seq::<Step>::empty());
        assert(run(ids, default_id, p, seq![Event::RebootAttempted]) == seq![Step::Finish] + last);
        assert(seq![first] + run(ids, default_id, p, seq![Event::RebootAttempted]) =~= seq![
            Step::Reboot,
            Step::Finish,
        ]);
    }
}

/// Choosing the entry that is the default already sets no default, then or
/// later, whatever else comes.
pub proof fn lemma_choosing_default_sets_nothing(
    ids: Seq<Seq<char>>,
    default_id: Seq<char>,
    i: usize,
    events: Seq<Event>,
)
    requires
        i < ids.len(),
        ids[i as int] == default_id,
    ensures
        avoids(
            run(ids, default_id, Phase::ChoosingEntry, seq![Event::EntryChosen(Some(i))] + events),
            Step::SetDefault,
        ),
{
    let all = seq![Event::EntryChosen(Some(i))] + events;
    assert(all.drop_first() =~= events);
    let (p, s) = next(ids, default_id, Phase::ChoosingEntry, all[0]);
    lemma_after_choice(ids, default_id, p, events);
    lemma_avoids_cons(s, run(ids, default_id, p, events), Step::SetDefault);
}

/// Cancelling the entry chooser ends the run: no default is set, the restart
/// prompt is not shown and no restart happens, whatever else comes.
pub proof fn lemma_cancel_ends_run(ids: Seq<Seq<char>>, default_id: Seq<char>, events: Seq<Event>)
    ensures
        ({
            let steps = run(
                ids,
                default_id,
                Phase::ChoosingEntry,
                seq![Event::EntryChosen(None)] + events,
            );
            &&& avoids(steps, Step::SetDefault)
            &&& avoids(steps, Step::ConfirmReboot)
            &&& avoids(steps, Step::Reboot)
        }),
{
    let all = seq![Event::EntryChosen(None)] + events;
    assert(all.drop_first() =~= events);
    lemma_done_only_finishes(ids, default_id, events);
    let rest = run(ids, default_id, Phase::Done, events);
    lemma_avoids_cons(Step::Finish, rest, Step::SetDefault);
    lemma_avoids_cons(Step::Finish, rest, Step::ConfirmReboot);
    lemma_avoids_cons(Step::Finish, rest, Step::Reboot);
}

/// A default id that is not listed leaves the first entry highlighted.
pub proof fn lemma_unlisted_default_highlights_first(ids: Seq<Seq<char>>, default_id: Seq<char>)
    requires
        forall|i: int| 0 <= i < ids.len() ==> ids[i] != default_id,
    ensures
        default_position(ids, default_id) == 0,
{
    assert(first_index_of(default_id, ids) is None);
}

} // verus!
