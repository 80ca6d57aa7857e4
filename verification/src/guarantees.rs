//! What holds of every run of the server.
//!
//! The statements here are about [`phase_after`] and [`actions_after`], the
//! functions in which [`Server::step`](crate::server::Server::step) and
//! [`Server::replay`](crate::server::Server::replay) state what they do.

use vstd::prelude::*;
use crate::command::{invocation_for, CommandOutput, Operation};
use crate::config::ConfigView;
use crate::history::{actions_after, phase_after, run_extends, run_splits};
use crate::outcome::Outcome;
use crate::server::{
    next_phase, pending, verdict, ActionView, Event, Fatal, Phase, COOLDOWN_SECONDS,
    SETTLE_SECONDS,
};

verus! {

/// The action that launches the detach command.
pub open spec fn run_detach(config: ConfigView) -> ActionView {
    ActionView::Run(invocation_for(Operation::Detach, config.machine, config.usb_file))
}

/// The action that launches the attach command.
pub open spec fn run_attach(config: ConfigView) -> ActionView {
    ActionView::Run(invocation_for(Operation::Attach, config.machine, config.usb_file))
}

/// Whether `event` says how writing the token ended.
pub open spec fn ends_write(event: Event) -> bool {
    event is Written || event is WriteFailed
}

/// Whether `event` says how shutting the connection down ended.
pub open spec fn ends_close(event: Event) -> bool {
    event is Closed || event is CloseFailed
}

/// What the server asks for, from taking a connection to the end of the
/// cooldown, when the detach command reported an error.
pub open spec fn short_cycle(config: ConfigView) -> Seq<ActionView> {
    seq![
        ActionView::Accept,
        run_detach(config),
        ActionView::Reply(Outcome::Failure),
        ActionView::Close,
        ActionView::Wait(COOLDOWN_SECONDS),
    ]
}

/// What the server asks for, from taking a connection to the end of the
/// cooldown, when the detach command went through and the cycle ended in `outcome`.
pub open spec fn full_cycle(config: ConfigView, outcome: Outcome) -> Seq<ActionView> {
    seq![
        ActionView::Accept,
        run_detach(config),
        ActionView::Wait(SETTLE_SECONDS),
        run_attach(config),
        ActionView::Reply(outcome),
        ActionView::Close,
        ActionView::Wait(COOLDOWN_SECONDS),
    ]
}

/// Whether the actions right before position `at` are those of one whole cycle.
pub open spec fn cycle_precedes(config: ConfigView, actions: Seq<ActionView>, at: int) -> bool {
    ||| at >= 5 && actions.subrange(at - 5, at) == short_cycle(config)
    ||| at >= 7 && actions.subrange(at - 7, at) == full_cycle(config, Outcome::Success)
    ||| at >= 7 && actions.subrange(at - 7, at) == full_cycle(config, Outcome::Failure)
}

/// Whether the actions right before position `at` are those that lead up to
/// the attach command: a connection is taken, the detach command is
/// launched, and the settling pause is asked for.
pub open spec fn settled_detach_precedes(
    config: ConfigView,
    actions: Seq<ActionView>,
    at: int,
) -> bool {
    at >= 3 && actions.subrange(at - 3, at) == seq![
        ActionView::Accept,
        run_detach(config),
        ActionView::Wait(SETTLE_SECONDS),
    ]
}

/// Whether `actions` and `expected` are the same as far as both go.
pub open spec fn agrees_with(actions: Seq<ActionView>, expected: Seq<ActionView>) -> bool {
    forall|i: int| 0 <= i < actions.len() && i < expected.len() ==> actions[i] == expected[i]
}

/// What is still to be asked for once the outcome of a cycle is known, up to
/// and including taking the next connection.
pub open spec fn wind_down(phase: Phase) -> Seq<ActionView> {
    match phase {
        Phase::Replying(_) => seq![
            ActionView::Close,
            ActionView::Wait(COOLDOWN_SECONDS),
            ActionView::Accept,
        ],
        Phase::Closing => seq![ActionView::Wait(COOLDOWN_SECONDS), ActionView::Accept],
        Phase::Cooling => seq![ActionView::Accept],
        _ => Seq::empty(),
    }
}

/// When neither command reports an error, the peer is sent the success
/// token. The detach command is launched first, the settling pause is asked
/// for next, and the attach command is launched only when that pause is over.
/// The connection is then closed and the cooldown observed before the next
/// connection is taken, whether or not the token could be written.
pub proof fn clean_cycle_succeeds(
    config: ConfigView,
    detach: CommandOutput,
    attach: CommandOutput,
    written: Event,
    closed: Event,
)
    requires
        !detach.has_error_output(),
        !attach.has_error_output(),
        ends_write(written),
        ends_close(closed),
    ensures
        ({
            let events = seq![
                Event::Connected,
                Event::Finished(detach),
                Event::Elapsed,
                Event::Finished(attach),
                written,
                closed,
                Event::Elapsed,
            ];
            &&& actions_after(config, Phase::Accepting, events) == seq![
                run_detach(config),
                ActionView::Wait(SETTLE_SECONDS),
                run_attach(config),
                ActionView::Reply(Outcome::Success),
                ActionView::Close,
                ActionView::Wait(COOLDOWN_SECONDS),
                ActionView::Accept,
            ]
            &&& phase_after(Phase::Accepting, events) == Phase::Accepting
        }),
{
    full_cycle_runs(config, detach, attach, written, closed);
}

/// When the attach command reports an error after a detach that went
/// through, the peer is sent the failure token.
pub proof fn failed_attach_reports_failure(
    config: ConfigView,
    detach: CommandOutput,
    attach: CommandOutput,
    written: Event,
    closed: Event,
)
    requires
        !detach.has_error_output(),
        attach.has_error_output(),
        ends_write(written),
        ends_close(closed),
    ensures
        ({
            let events = seq![
                Event::Connected,
                Event::Finished(detach),
                Event::Elapsed,
                Event::Finished(attach),
                written,
                closed,
                Event::Elapsed,
            ];
            &&& actions_after(config, Phase::Accepting, events) == seq![
                run_detach(config),
                ActionView::Wait(SETTLE_SECONDS),
                run_attach(config),
                ActionView::Reply(Outcome::Failure),
                ActionView::Close,
                ActionView::Wait(COOLDOWN_SECONDS),
                ActionView::Accept,
            ]
            &&& phase_after(Phase::Accepting, events) == Phase::Accepting
        }),
{
    full_cycle_runs(config, detach, attach, written, closed);
}

/// The run of a cycle in which the detach command went through.
proof fn full_cycle_runs(
    config: ConfigView,
    detach: CommandOutput,
    attach: CommandOutput,
    written: Event,
    closed: Event,
)
    requires
        !detach.has_error_output(),
        ends_write(written),
        ends_close(closed),
    ensures
        ({
            let events = seq![
                Event::Connected,
                Event::Finished(detach),
                Event::Elapsed,
                Event::Finished(attach),
                written,
                closed,
                Event::Elapsed,
            ];
            &&& actions_after(config, Phase::Accepting, events) == seq![
                run_detach(config),
                ActionView::Wait(SETTLE_SECONDS),
                run_attach(config),
                ActionView::Reply(verdict(attach)),
                ActionView::Close,
                ActionView::Wait(COOLDOWN_SECONDS),
                ActionView::Accept,
            ]
            &&& phase_after(Phase::Accepting, events) == Phase::Accepting
        }),
{
    let start = Phase::Accepting;
    let e0 = Seq::<Event>::empty();
    let e1 = e0.push(Event::Connected);
    let e2 = e1.push(Event::Finished(detach));
    let e3 = e2.push(Event::Elapsed);
    let e4 = e3.push(Event::Finished(attach));
    let e5 = e4.push(written);
    let e6 = e5.push(closed);
    run_extends(config, start, e0, Event::Connected);
    run_extends(config, start, e1, Event::Finished(detach));
    run_extends(config, start, e2, Event::Elapsed);
    run_extends(config, start, e3, Event::Finished(attach));
    run_extends(config, start, e4, written);
    run_extends(config, start, e5, closed);
    run_extends(config, start, e6, Event::Elapsed);
    let events = seq![
        Event::Connected,
        Event::Finished(detach),
        Event::Elapsed,
        Event::Finished(attach),
        written,
        closed,
        Event::Elapsed,
    ];
    assert(events =~= e6.push(Event::Elapsed));
    assert(actions_after(config, start, events) =~= seq![
        run_detach(config),
        ActionView::Wait(SETTLE_SECONDS),
        run_attach(config),
        ActionView::Reply(verdict(attach)),
        ActionView::Close,
        ActionView::Wait(COOLDOWN_SECONDS),
        ActionView::Accept,
    ]);
}

/// When the detach command reports an error, the peer is sent the failure
/// token and the attach command is not launched: whatever events come in
/// after the detach command has finished, the server asks in turn for the
/// failure reply, the close, the cooldown and the next connection, and for
/// nothing else before that.
pub proof fn failed_detach_skips_attach(
    config: ConfigView,
    detach: CommandOutput,
    rest: Seq<Event>,
)
    requires
        detach.has_error_output(),
    ensures
        ({
            let actions = actions_after(
                config,
                Phase::Accepting,
                seq![Event::Connected, Event::Finished(detach)] + rest,
            );
            &&& agrees_with(
                actions,
                seq![
                    run_detach(config),
                    ActionView::Reply(Outcome::Failure),
                    ActionView::Close,
                    ActionView::Wait(COOLDOWN_SECONDS),
                    ActionView::Accept,
                ],
            )
            &&& forall|i: int| 0 <= i < actions.len() && i < 5 ==> actions[i] != run_attach(config)
        }),
{
    let start = Phase::Accepting;
    let e0 = Seq::<Event>::empty();
    let e1 = e0.push(Event::Connected);
    let e2 = e1.push(Event::Finished(detach));
    run_extends(config, start, e0, Event::Connected);
    run_extends(config, start, e1, Event::Finished(detach));
    assert(seq![Event::Connected, Event::Finished(detach)] =~= e2);
    run_splits(config, start, e2, rest);
    reply_leads_to_cooldown(config, Outcome::Failure, rest);
    commands_differ(config);
}

/// The two commands of a cycle are never the same command line.
pub proof fn commands_differ(config: ConfigView)
    ensures
        run_detach(config) != run_attach(config),
{
    reveal_strlit("detach-device");
    reveal_strlit("attach-device");
    let detach = invocation_for(Operation::Detach, config.machine, config.usb_file);
    let attach = invocation_for(Operation::Attach, config.machine, config.usb_file);
    assert(detach.args[0][0] == 'd');
    assert(attach.args[0][0] == 'a');
}

/// The run of a cycle in which the detach command reported an error, from
/// the connection to the end of the cooldown.
pub proof fn failed_detach_cycle(
    config: ConfigView,
    detach: CommandOutput,
    written: Event,
    closed: Event,
)
    requires
        detach.has_error_output(),
        ends_write(written),
        ends_close(closed),
    ensures
        ({
            let events = seq![
                Event::Connected,
                Event::Finished(detach),
                written,
                closed,
                Event::Elapsed,
            ];
            &&& actions_after(config, Phase::Accepting, events) == seq![
                run_detach(config),
                ActionView::Reply(Outcome::Failure),
                ActionView::Close,
                ActionView::Wait(COOLDOWN_SECONDS),
                ActionView::Accept,
            ]
            &&& phase_after(Phase::Accepting, events) == Phase::Accepting
        }),
{
    let start = Phase::Accepting;
    let e0 = Seq::<Event>::empty();
    let e1 = e0.push(Event::Connected);
    let e2 = e1.push(Event::Finished(detach));
    let e3 = e2.push(written);
    let e4 = e3.push(closed);
    run_extends(config, start, e0, Event::Connected);
    run_extends(config, start, e1, Event::Finished(detach));
    run_extends(config, start, e2, written);
    run_extends(config, start, e3, closed);
    run_extends(config, start, e4, Event::Elapsed);
    let events = seq![Event::Connected, Event::Finished(detach), written, closed, Event::Elapsed];
    assert(events =~= e4.push(Event::Elapsed));
    assert(actions_after(config, start, events) =~= seq![
        run_detach(config),
        ActionView::Reply(Outcome::Failure),
        ActionView::Close,
        ActionView::Wait(COOLDOWN_SECONDS),
        ActionView::Accept,
    ]);
}

/// Once the outcome is known, nothing keeps the cycle from running to its
/// end. Whatever events come in, a failed write or a failed close among them,
/// the server asks in turn for what [`wind_down`] lists: the connection is
/// closed, the cooldown is observed, and the next connection is taken.
pub proof fn cycle_runs_to_its_end(config: ConfigView, phase: Phase, rest: Seq<Event>)
    ensures
        agrees_with(actions_after(config, phase, rest), wind_down(phase)),
    decreases rest.len(),
{
    if rest.len() > 0 && wind_down(phase).len() > 0 {
        let event = rest[0];
        let first = Seq::<Event>::empty().push(event);
        let later = rest.subrange(1, rest.len() as int);
        assert(rest =~= first + later);
        run_extends(config, phase, Seq::<Event>::empty(), event);
        run_splits(config, phase, first, later);
        match next_phase(phase, event) {
            Some(next) => {
                cycle_runs_to_its_end(config, next, later);
                let head = Seq::<ActionView>::empty().push(pending(config, next));
                assert(wind_down(phase) =~= head + wind_down(next));
            },
            None => {
                cycle_runs_to_its_end(config, phase, later);
                assert(actions_after(config, phase, rest) =~= actions_after(
                    config,
                    phase,
                    later,
                ));
            },
        }
    }
}

/// After the token for `outcome` was handed over for writing, the server
/// asks for the close, the cooldown and the next connection, in this order,
/// whatever events come in.
pub proof fn reply_leads_to_cooldown(config: ConfigView, outcome: Outcome, rest: Seq<Event>)
    ensures
        agrees_with(
            actions_after(config, Phase::Replying(outcome), rest),
            seq![ActionView::Close, ActionView::Wait(COOLDOWN_SECONDS), ActionView::Accept],
        ),
{
    cycle_runs_to_its_end(config, Phase::Replying(outcome), rest);
}

/// A peer that is gone does the server no harm: a failed write is taken like
/// a write that went through, and so is a failed close. The server stops
/// only when the socket cannot be bound, a connection cannot be taken, or a
/// command cannot be launched.
pub proof fn lost_peer_is_tolerated(phase: Phase, event: Event)
    ensures
        next_phase(phase, Event::WriteFailed) == next_phase(phase, Event::Written),
        next_phase(phase, Event::CloseFailed) == next_phase(phase, Event::Closed),
        phase is Replying ==> next_phase(phase, Event::WriteFailed) == Some(Phase::Closing),
        phase is Closing ==> next_phase(phase, Event::CloseFailed) == Some(Phase::Cooling),
        next_phase(phase, event) matches Some(Phase::Stopped(fatal)) ==> match fatal {
            Fatal::Bind => phase is Binding && event is BindFailed,
            Fatal::Accept => phase is Accepting && event is AcceptFailed,
            Fatal::Launch(Operation::Detach) => phase is Detaching && event is LaunchFailed,
            Fatal::Launch(Operation::Attach) => phase is Attaching && event is LaunchFailed,
        },
{
}

/// A server that has stopped stays stopped and asks for nothing more.
pub proof fn stopped_is_final(config: ConfigView, fatal: Fatal, events: Seq<Event>)
    ensures
        phase_after(Phase::Stopped(fatal), events) == Phase::Stopped(fatal),
        actions_after(config, Phase::Stopped(fatal), events) == Seq::<ActionView>::empty(),
    decreases events.len(),
{
    if events.len() > 0 {
        stopped_is_final(config, fatal, events.drop_last());
    }
}

/// The server turns to the next connection only when the socket has just
/// been bound or when a cooldown is over.
pub proof fn accepting_follows_bind_or_cooldown(phase: Phase, event: Event)
    ensures
        next_phase(phase, event) == Some(Phase::Accepting) ==> (phase is Binding && event is Bound)
            || (phase is Cooling && event is Elapsed),
{
}

/// The success token is owed to two clean commands and a pause between
/// them: the reply is success only in answer to an attach command without
/// error output, the attach command is launched only in answer to the end of
/// the settling pause, and that pause is asked for only in answer to a
/// detach command without error output.
pub proof fn success_needs_two_clean_commands(phase: Phase, event: Event)
    ensures
        next_phase(phase, event) == Some(Phase::Replying(Outcome::Success)) ==> phase is Attaching
            && (event matches Event::Finished(output) && !output.has_error_output()),
        next_phase(phase, event) == Some(Phase::Attaching) ==> phase is Settling
            && event is Elapsed,
        next_phase(phase, event) == Some(Phase::Settling) ==> phase is Detaching && (
        event matches Event::Finished(output) && !output.has_error_output()),
{
}

/// Whether `actions` ends with `tail`.
spec fn ends_with(actions: Seq<ActionView>, tail: Seq<ActionView>) -> bool {
    &&& actions.len() >= tail.len()
    &&& actions.subrange(actions.len() - tail.len(), actions.len() as int) =~= tail
}

/// Whether `actions` ends with the first `short` actions of a short cycle
/// or with the first `full` actions of a full one.
spec fn ends_within_cycle(
    config: ConfigView,
    actions: Seq<ActionView>,
    short: int,
    full: int,
) -> bool {
    ||| ends_with(actions, short_cycle(config).take(short))
    ||| ends_with(actions, full_cycle(config, Outcome::Success).take(full))
    ||| ends_with(actions, full_cycle(config, Outcome::Failure).take(full))
}

/// How the actions asked for so far end, given the phase that was reached:
/// with the part of the current cycle that lies behind.
spec fn tail_fits(config: ConfigView, phase: Phase, actions: Seq<ActionView>) -> bool {
    match phase {
        Phase::Binding => actions.len() == 0,
        Phase::Accepting => ends_with(actions, short_cycle(config).take(1)),
        Phase::Detaching => ends_with(actions, short_cycle(config).take(2)),
        Phase::Settling => ends_with(actions, full_cycle(config, Outcome::Success).take(3)),
        Phase::Attaching => ends_with(actions, full_cycle(config, Outcome::Success).take(4)),
        Phase::Replying(outcome) => {
            ||| outcome == Outcome::Failure && ends_with(actions, short_cycle(config).take(3))
            ||| ends_with(actions, full_cycle(config, outcome).take(5))
        },
        Phase::Closing => ends_within_cycle(config, actions, 4, 6),
        Phase::Cooling => ends_within_cycle(config, actions, 5, 7),
        Phase::Stopped(_) => true,
    }
}

/// Whether every connection taken in `actions`, but for the first, comes
/// right after a whole cycle.
spec fn accepts_follow_cycles(config: ConfigView, actions: Seq<ActionView>) -> bool {
    forall|at: int|
        0 < at < actions.len() && actions[at] == ActionView::Accept ==> #[trigger] cycle_precedes(
            config,
            actions,
            at,
        )
}

/// Whether every launch of the attach command in `actions` comes right
/// after a detach and a settling pause.
spec fn attaches_follow_settling(config: ConfigView, actions: Seq<ActionView>) -> bool {
    forall|at: int|
        0 <= at < actions.len() && actions[at] == run_attach(config)
            ==> #[trigger] settled_detach_precedes(config, actions, at)
}

/// A run that ends with the first `count` actions of `cycle` and goes on
/// with the next one ends with the first `count + 1`.
proof fn tail_grows(
    actions: Seq<ActionView>,
    cycle: Seq<ActionView>,
    count: int,
    action: ActionView,
)
    requires
        0 <= count < cycle.len(),
        ends_with(actions, cycle.take(count)),
        action == cycle[count],
    ensures
        ends_with(actions.push(action), cycle.take(count + 1)),
{
    let longer = actions.push(action);
    let tail = actions.subrange(actions.len() - count, actions.len() as int);
    assert(longer.subrange(longer.len() - (count + 1), longer.len() as int) =~= tail.push(action));
    assert(cycle.take(count + 1) =~= cycle.take(count).push(action));
}

/// Every run from the start keeps its actions in step with its phase, and
/// takes each connection but the first right after a whole cycle.
proof fn run_keeps_cycles_whole(config: ConfigView, events: Seq<Event>)
    ensures
        tail_fits(
            config,
            phase_after(Phase::Binding, events),
            actions_after(config, Phase::Binding, events),
        ),
        accepts_follow_cycles(config, actions_after(config, Phase::Binding, events)),
        attaches_follow_settling(config, actions_after(config, Phase::Binding, events)),
    decreases events.len(),
{
    if events.len() > 0 {
        let shorter = events.drop_last();
        run_keeps_cycles_whole(config, shorter);
        let before = phase_after(Phase::Binding, shorter);
        let earlier = actions_after(config, Phase::Binding, shorter);
        if let Some(phase) = next_phase(before, events.last()) {
            let action = pending(config, phase);
            let actions = earlier.push(action);
            let short = short_cycle(config);
            let good = full_cycle(config, Outcome::Success);
            let bad = full_cycle(config, Outcome::Failure);
            assert(good.take(4) =~= bad.take(4));
            match before {
                Phase::Binding => {
                    assert(phase is Accepting ==> actions =~= short.take(1));
                },
                Phase::Accepting => {
                    if phase is Detaching {
                        tail_grows(earlier, short, 1, action);
                    }
                },
                Phase::Detaching => {
                    assert(short.take(2) =~= good.take(2));
                    if phase is Settling {
                        tail_grows(earlier, good, 2, action);
                    } else if phase is Replying {
                        tail_grows(earlier, short, 2, action);
                    }
                },
                Phase::Settling => {
                    tail_grows(earlier, good, 3, action);
                },
                Phase::Attaching => {
                    if phase == Phase::Replying(Outcome::Success) {
                        tail_grows(earlier, good, 4, action);
                    } else if phase == Phase::Replying(Outcome::Failure) {
                        tail_grows(earlier, bad, 4, action);
                    }
                },
                Phase::Replying(outcome) => {
                    if outcome == Outcome::Failure && ends_with(earlier, short.take(3)) {
                        tail_grows(earlier, short, 3, action);
                    } else {
                        tail_grows(earlier, full_cycle(config, outcome), 5, action);
                    }
                },
                Phase::Closing => {
                    if ends_with(earlier, short.take(4)) {
                        tail_grows(earlier, short, 4, action);
                    } else if ends_with(earlier, good.take(6)) {
                        tail_grows(earlier, good, 6, action);
                    } else if ends_with(earlier, bad.take(6)) {
                        tail_grows(earlier, bad, 6, action);
                    }
                },
                Phase::Cooling => {
                    tail_grows(earlier, short, 0, action);
                },
                Phase::Stopped(_) => {},
            }
            assert forall|at: int|
                0 < at < actions.len() && actions[at]
                    == ActionView::Accept implies #[trigger] cycle_precedes(config, actions, at) by {
                if at < earlier.len() {
                    assert(cycle_precedes(config, earlier, at));
                    if at >= 5 {
                        assert(actions.subrange(at - 5, at) =~= earlier.subrange(at - 5, at));
                    }
                    if at >= 7 {
                        assert(actions.subrange(at - 7, at) =~= earlier.subrange(at - 7, at));
                    }
                } else {
                    assert(before is Cooling);
                    assert(short.take(5) =~= short);
                    assert(good.take(7) =~= good);
                    assert(bad.take(7) =~= bad);
                    if at >= 5 {
                        assert(actions.subrange(at - 5, at) =~= earlier.subrange(at - 5, at));
                    }
                    if at >= 7 {
                        assert(actions.subrange(at - 7, at) =~= earlier.subrange(at - 7, at));
                    }
                }
            }
            assert forall|at: int|
                0 <= at < actions.len() && actions[at] == run_attach(
                    config,
                ) implies #[trigger] settled_detach_precedes(config, actions, at) by {
                commands_differ(config);
                if at < earlier.len() {
                    assert(settled_detach_precedes(config, earlier, at));
                } else {
                    assert(before is Settling);
                }
                assert(actions.subrange(at - 3, at) =~= earlier.subrange(at - 3, at));
                assert(good.take(3) =~= seq![
                    ActionView::Accept,
                    run_detach(config),
                    ActionView::Wait(SETTLE_SECONDS),
                ]);
            }
        }
    }
}

/// The attach command is launched only after a settling pause that follows
/// the detach command. In every run from the start, each launch of the
/// attach command comes right after these three: a connection is taken, the
/// detach command is launched, the settling pause is asked for. By
/// [`success_needs_two_clean_commands`] the launch answers the end of that
/// pause.
pub proof fn attach_follows_settled_detach(config: ConfigView, events: Seq<Event>, at: int)
    requires
        0 <= at < actions_after(config, Phase::Binding, events).len(),
        actions_after(config, Phase::Binding, events)[at] == run_attach(config),
    ensures
        settled_detach_precedes(config, actions_after(config, Phase::Binding, events), at),
{
    run_keeps_cycles_whole(config, events);
}

/// Connections are served strictly one at a time. In every run from the
/// start, each connection but the first is taken right after a whole cycle
/// for the connection before it: that one was taken, the detach command was
/// launched, then either the failure reply, or the settling pause, the
/// attach command and the reply, and at last the close and the cooldown.
pub proof fn connections_are_served_one_at_a_time(
    config: ConfigView,
    events: Seq<Event>,
    at: int,
)
    requires
        0 < at < actions_after(config, Phase::Binding, events).len(),
        actions_after(config, Phase::Binding, events)[at] == ActionView::Accept,
    ensures
        cycle_precedes(config, actions_after(config, Phase::Binding, events), at),
{
    run_keeps_cycles_whole(config, events);
}

} // verus!
