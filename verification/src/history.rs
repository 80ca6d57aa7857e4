//! Runs of the server over a whole sequence of events.

use vstd::prelude::*;
use crate::config::ConfigView;
use crate::server::{next_phase, pending, Action, ActionView, Event, Phase, Server};

verus! {

/// The phase reached from `start` after `events` came in, one after another.
/// An event that the phase at its turn does not wait for changes nothing.
pub open spec fn phase_after(start: Phase, events: Seq<Event>) -> Phase
    decreases events.len(),
{
    if events.len() == 0 {
        start
    } else {
        let before = phase_after(start, events.drop_last());
        match next_phase(before, events.last()) {
            Some(phase) => phase,
            None => before,
        }
    }
}

/// The actions that a server in phase `start` asks for while `events` come
/// in, in order. The action that was outstanding in `start` is not among them.
pub open spec fn actions_after(config: ConfigView, start: Phase, events: Seq<Event>) -> Seq<
    ActionView,
>
    decreases events.len(),
{
    if events.len() == 0 {
        Seq::empty()
    } else {
        let earlier = actions_after(config, start, events.drop_last());
        match next_phase(phase_after(start, events.drop_last()), events.last()) {
            Some(phase) => earlier.push(pending(config, phase)),
            None => earlier,
        }
    }
}

/// A sequence of actions as plain values.
pub open spec fn views_of(actions: Seq<Action>) -> Seq<ActionView> {
    Seq::new(actions.len(), |i: int| actions[i]@)
}

/// One more event at the end of a run is one more step of the machine.
pub proof fn run_extends(config: ConfigView, start: Phase, events: Seq<Event>, event: Event)
    ensures
        phase_after(start, events.push(event)) == match next_phase(
            phase_after(start, events),
            event,
        ) {
            Some(phase) => phase,
            None => phase_after(start, events),
        },
        actions_after(config, start, events.push(event)) == match next_phase(
            phase_after(start, events),
            event,
        ) {
            Some(phase) => actions_after(config, start, events).push(pending(config, phase)),
            None => actions_after(config, start, events),
        },
{
    assert(events.push(event).drop_last() =~= events);
}

/// A run can be cut in two: the second part starts in the phase that the
/// first part ended in, and the actions of the parts follow one another.
pub proof fn run_splits(config: ConfigView, start: Phase, first: Seq<Event>, second: Seq<Event>)
    ensures
        phase_after(start, first + second) == phase_after(phase_after(start, first), second),
        actions_after(config, start, first + second) == actions_after(config, start, first)
            + actions_after(config, phase_after(start, first), second),
    decreases second.len(),
{
    let middle = phase_after(start, first);
    if second.len() == 0 {
        assert(first + second =~= first);
        assert(actions_after(config, start, first) + Seq::<ActionView>::empty() =~= actions_after(
            config,
            start,
            first,
        ));
    } else {
        let shorter = second.drop_last();
        let event = second.last();
        run_splits(config, start, first, shorter);
        assert(first + second =~= (first + shorter).push(event));
        assert(second =~= shorter.push(event));
        run_extends(config, start, first + shorter, event);
        run_extends(config, middle, shorter, event);
        let so_far = actions_after(config, start, first);
        let later = actions_after(config, middle, shorter);
        match next_phase(phase_after(middle, shorter), event) {
            Some(phase) => {
                assert((so_far + later).push(pending(config, phase)) =~= so_far + later.push(
                    pending(config, phase),
                ));
            },
            None => {},
        }
    }
}

impl Server {
    /// Feeds the server a sequence of events and collects the actions it asks for.
    ///
    /// This is [`Server::step`] for each event in turn. Events that the server
    /// does not wait for at their turn are passed over.
    pub fn replay(&mut self, events: &Vec<Event>) -> (actions: Vec<Action>)
        ensures
            final(self)@.config == old(self)@.config,
            final(self)@.phase == phase_after(old(self)@.phase, events@),
            views_of(actions@) == actions_after(old(self)@.config, old(self)@.phase, events@),
    {
        let ghost config = self@.config;
        let ghost start = self@.phase;
        let mut actions: Vec<Action> = Vec::new();
        let mut i: usize = 0;
        assert(views_of(actions@) =~= actions_after(config, start, events@.take(0)));
        while i < events.len()
            invariant
                0 <= i <= events.len(),
                self@.config == config,
                self@.phase == phase_after(start, events@.take(i as int)),
                views_of(actions@) == actions_after(config, start, events@.take(i as int)),
            decreases events.len() - i,
        {
            proof {
                run_extends(config, start, events@.take(i as int), events@[i as int]);
                assert(events@.take(i as int).push(events@[i as int]) =~= events@.take(i + 1));
            }
            let ghost before = actions@;
            match self.step(&events[i]) {
                Some(action) => {
                    actions.push(action);
                    assert(views_of(actions@) =~= views_of(before).push(action@));
                },
                None => {},
            }
            i += 1;
        }
        assert(events@.take(i as int) =~= events@);
        actions
    }
}

} // verus!
