use vstd::prelude::*;

use crate::builder::Application;
use crate::errors::{FatalError, RuntimeStartError};
use crate::plugin::SetupHook;
use crate::runtime::{Action, Event, Phase, Runtime};

verus! {

/// Every event of the sequence is admissible when its turn comes.
pub open spec fn trace_ok(rt: Runtime, evs: Seq<Event>) -> bool
    decreases evs.len(),
{
    evs.len() == 0 || (rt.admits(evs.first()) && trace_ok(rt.next(evs.first()), evs.drop_first()))
}

/// The state after absorbing the whole event sequence.
pub open spec fn runs_to(rt: Runtime, evs: Seq<Event>) -> Runtime
    decreases evs.len(),
{
    if evs.len() == 0 {
        rt
    } else {
        runs_to(rt.next(evs.first()), evs.drop_first())
    }
}

/// The actions the runtime hands out along the event sequence.
pub open spec fn actions_of(rt: Runtime, evs: Seq<Event>) -> Seq<Action>
    decreases evs.len(),
{
    if evs.len() == 0 {
        Seq::empty()
    } else {
        seq![rt.emit(evs.first())] + actions_of(rt.next(evs.first()), evs.drop_first())
    }
}

/// How many times the host was asked to invoke the setup hook.
pub open spec fn count_invoke_setup(acts: Seq<Action>) -> int
    decreases acts.len(),
{
    if acts.len() == 0 {
        0
    } else {
        (if acts.first() is InvokeSetup {
            1int
        } else {
            0int
        }) + count_invoke_setup(acts.drop_first())
    }
}

/// How many times the host was asked to register a plugin.
pub open spec fn count_register(acts: Seq<Action>) -> int
    decreases acts.len(),
{
    if acts.len() == 0 {
        0
    } else {
        (if acts.first() is RegisterPlugin {
            1int
        } else {
            0int
        }) + count_register(acts.drop_first())
    }
}

/// How many times the host was asked to start the event loop.
pub open spec fn count_start_loop(acts: Seq<Action>) -> int
    decreases acts.len(),
{
    if acts.len() == 0 {
        0
    } else {
        (if acts.first() is StartEventLoop {
            1int
        } else {
            0int
        }) + count_start_loop(acts.drop_first())
    }
}

/// How many times the host was asked to serve the running event loop.
pub open spec fn count_serve(acts: Seq<Action>) -> int
    decreases acts.len(),
{
    if acts.len() == 0 {
        0
    } else {
        (if acts.first() is ServeEventLoop {
            1int
        } else {
            0int
        }) + count_serve(acts.drop_first())
    }
}

/// Every setup invocation among the actions names the hook `h`.
pub open spec fn invokes_only(acts: Seq<Action>, h: SetupHook) -> bool
    decreases acts.len(),
{
    acts.len() == 0 || ((acts.first() matches Action::InvokeSetup(g) ==> g == h) && invokes_only(
        acts.drop_first(),
        h,
    ))
}

/// The indices of the plugin registrations among the actions, in the order
/// they were handed out.
pub open spec fn register_indices(acts: Seq<Action>) -> Seq<int>
    decreases acts.len(),
{
    if acts.len() == 0 {
        Seq::empty()
    } else {
        match acts.first() {
            Action::RegisterPlugin(i) => seq![i as int] + register_indices(acts.drop_first()),
            _ => register_indices(acts.drop_first()),
        }
    }
}

/// The integers from `a` (inclusive) to `b` (exclusive), in order.
pub open spec fn range_seq(a: int, b: int) -> Seq<int> {
    Seq::new(if b >= a {
        (b - a) as nat
    } else {
        0
    }, |i: int| a + i)
}

/// A state has passed the point where the setup hook is requested.
pub open spec fn setup_requested(rt: Runtime) -> bool {
    rt.app.setup is Some && match rt.phase {
        Phase::Created => false,
        Phase::PluginsRegistered | Phase::SetupRan | Phase::EventLoopRunning
            | Phase::Terminated => true,
        Phase::FatalExit => match rt.fault {
            Some(FatalError::Start(RuntimeStartError::ContextLoad(_))) => false,
            Some(FatalError::Start(RuntimeStartError::PluginRegistration(_))) => false,
            _ => true,
        },
    }
}

/// How many plugin registrations a state has asked for so far.
pub open spec fn registrations_requested(rt: Runtime) -> int {
    match rt.phase {
        Phase::Created => if rt.context_ready {
            rt.registered + 1
        } else {
            0
        },
        Phase::PluginsRegistered | Phase::SetupRan | Phase::EventLoopRunning
            | Phase::Terminated => rt.plugin_count(),
        Phase::FatalExit => match rt.fault {
            Some(FatalError::Start(RuntimeStartError::ContextLoad(_))) => 0,
            Some(FatalError::Start(RuntimeStartError::PluginRegistration(_))) => rt.registered
                + 1,
            _ => rt.plugin_count(),
        },
    }
}

/// A state has passed the point where starting the event loop is requested.
pub open spec fn loop_start_requested(rt: Runtime) -> bool {
    match rt.phase {
        Phase::Created => false,
        Phase::PluginsRegistered => rt.app.setup is None,
        Phase::SetupRan | Phase::EventLoopRunning | Phase::Terminated => true,
        Phase::FatalExit => match rt.fault {
            Some(FatalError::Start(RuntimeStartError::EventLoopStart(_))) => true,
            Some(FatalError::EventLoop(_)) => true,
            _ => false,
        },
    }
}

/// A state has actually entered the event loop.
pub open spec fn loop_entered(rt: Runtime) -> bool {
    match rt.phase {
        Phase::EventLoopRunning | Phase::Terminated => true,
        Phase::FatalExit => rt.fault matches Some(FatalError::EventLoop(_)),
        _ => false,
    }
}

/// A request marker as a count: 1 once the point has been passed, else 0.
pub open spec fn b2i(b: bool) -> int {
    if b {
        1
    } else {
        0
    }
}

/// One admissible step preserves the invariant and the application, and
/// moves each request marker exactly when the matching action is emitted.
pub proof fn lemma_step_effects(rt: Runtime, ev: Event)
    requires
        rt.inv(),
        rt.admits(ev),
    ensures
        rt.next(ev).inv(),
        rt.next(ev).app == rt.app,
        b2i(setup_requested(rt.next(ev))) - b2i(setup_requested(rt)) == b2i(
            rt.emit(ev) is InvokeSetup,
        ),
        registrations_requested(rt.next(ev)) - registrations_requested(rt) == b2i(
            rt.emit(ev) is RegisterPlugin,
        ),
        b2i(loop_start_requested(rt.next(ev))) - b2i(loop_start_requested(rt)) == b2i(
            rt.emit(ev) is StartEventLoop,
        ),
        b2i(loop_entered(rt.next(ev))) - b2i(loop_entered(rt)) == b2i(
            rt.emit(ev) is ServeEventLoop,
        ),
        rt.emit(ev) matches Action::InvokeSetup(h) ==> rt.app.setup == Some(h),
        rt.emit(ev) matches Action::RegisterPlugin(i) ==> i == registrations_requested(rt)
            && i < rt.plugin_count(),
{
    match ev {
        Event::Start => {},
        Event::ContextResolved => {},
        Event::ContextFailed(_) => {},
        Event::PluginRegistered => {},
        Event::PluginRejected(_) => {},
        Event::SetupCompleted => {},
        Event::SetupFailed(_) => {},
        Event::EventLoopStarted => {},
        Event::EventLoopFailed(_) => {},
        Event::ShutdownRequested => {},
        Event::EventLoopCrashed(_) => {},
    }
}

/// Splitting off the first action of a trace.
proof fn lemma_cons_action(a: Action, rest: Seq<Action>)
    ensures
        (seq![a] + rest).len() == rest.len() + 1,
        (seq![a] + rest).first() == a,
        (seq![a] + rest).drop_first() == rest,
{
    assert((seq![a] + rest).drop_first() =~= rest);
}

/// Over a whole admissible trace, the number of times each action was
/// handed out equals the movement of the matching request marker, and the
/// invariant and the application are preserved.
pub proof fn lemma_trace_counts(rt: Runtime, evs: Seq<Event>)
    requires
        rt.inv(),
        trace_ok(rt, evs),
    ensures
        runs_to(rt, evs).inv(),
        runs_to(rt, evs).app == rt.app,
        count_invoke_setup(actions_of(rt, evs)) == b2i(setup_requested(runs_to(rt, evs))) - b2i(
            setup_requested(rt),
        ),
        count_register(actions_of(rt, evs)) == registrations_requested(runs_to(rt, evs))
            - registrations_requested(rt),
        count_start_loop(actions_of(rt, evs)) == b2i(loop_start_requested(runs_to(rt, evs)))
            - b2i(loop_start_requested(rt)),
        count_serve(actions_of(rt, evs)) == b2i(loop_entered(runs_to(rt, evs))) - b2i(
            loop_entered(rt),
        ),
    decreases evs.len(),
{
    if evs.len() == 0 {
    } else {
        let mid = rt.next(evs.first());
        lemma_step_effects(rt, evs.first());
        lemma_cons_action(rt.emit(evs.first()), actions_of(mid, evs.drop_first()));
        lemma_trace_counts(mid, evs.drop_first());
    }
}

/// Once the setup hook is requested, no plugin registration is ever
/// requested again: every registration precedes the invocation.
pub open spec fn registrations_precede_setup(acts: Seq<Action>) -> bool
    decreases acts.len(),
{
    acts.len() == 0 || (if acts.first() is InvokeSetup {
        count_register(acts.drop_first()) == 0
    } else {
        registrations_precede_setup(acts.drop_first())
    })
}

/// Bounds of the registration request marker in any reachable state: it
/// never runs past the plugin list, and once the setup hook has been
/// requested it sits at the end of the list.
proof fn lemma_requested_bounds(rt: Runtime)
    requires
        rt.inv(),
    ensures
        0 <= registrations_requested(rt) <= rt.plugin_count(),
        setup_requested(rt) ==> registrations_requested(rt) == rt.plugin_count(),
{
}

/// Helper for [`lemma_setup_once_after_registration`]: along any admissible
/// trace, every registration request precedes any setup request.
proof fn lemma_registrations_precede_setup(rt: Runtime, evs: Seq<Event>)
    requires
        rt.inv(),
        trace_ok(rt, evs),
    ensures
        registrations_precede_setup(actions_of(rt, evs)),
    decreases evs.len(),
{
    if evs.len() > 0 {
        let mid = rt.next(evs.first());
        let tail_acts = actions_of(mid, evs.drop_first());
        lemma_step_effects(rt, evs.first());
        lemma_cons_action(rt.emit(evs.first()), tail_acts);
        if rt.emit(evs.first()) is InvokeSetup {
            lemma_trace_counts(mid, evs.drop_first());
            lemma_counts_nonneg(tail_acts);
            lemma_requested_bounds(mid);
            lemma_requested_bounds(runs_to(mid, evs.drop_first()));
            assert(setup_requested(mid));
            assert(count_register(tail_acts) == 0);
        } else {
            lemma_registrations_precede_setup(mid, evs.drop_first());
        }
    }
}

/// Action counts are counts: never negative.
proof fn lemma_counts_nonneg(acts: Seq<Action>)
    ensures
        count_invoke_setup(acts) >= 0,
        count_register(acts) >= 0,
        count_start_loop(acts) >= 0,
        count_serve(acts) >= 0,
    decreases acts.len(),
{
    if acts.len() > 0 {
        lemma_counts_nonneg(acts.drop_first());
    }
}

/// DETERMINISTIC COMPOSITION: an admissible run from the initial state
/// asks for plugin registrations in exactly the application's order —
/// position 0 first, then position 1, and so on, with no position skipped,
/// repeated or reordered, and never past the end of the plugin list.
pub proof fn lemma_registration_in_order(app: Application, evs: Seq<Event>)
    requires
        trace_ok(Runtime::initial(app), evs),
    ensures
        register_indices(actions_of(Runtime::initial(app), evs)) == range_seq(
            0,
            count_register(actions_of(Runtime::initial(app), evs)),
        ),
        count_register(actions_of(Runtime::initial(app), evs)) <= app.plugins@.len(),
{
    let rt0 = Runtime::initial(app);
    lemma_trace_counts(rt0, evs);
    lemma_register_indices_range(rt0, evs);
    let fin = runs_to(rt0, evs);
    assert(registrations_requested(fin) <= app.plugins@.len());
}

/// Helper for [`lemma_registration_in_order`], generalized over the
/// starting state: the registration indices handed out along a trace are
/// exactly the consecutive range the request marker moves across.
proof fn lemma_register_indices_range(rt: Runtime, evs: Seq<Event>)
    requires
        rt.inv(),
        trace_ok(rt, evs),
    ensures
        register_indices(actions_of(rt, evs)) == range_seq(
            registrations_requested(rt),
            registrations_requested(runs_to(rt, evs)),
        ),
    decreases evs.len(),
{
    let a = registrations_requested(rt);
    let fin = runs_to(rt, evs);
    if evs.len() == 0 {
        assert(range_seq(a, a) =~= Seq::<int>::empty());
    } else {
        let mid = rt.next(evs.first());
        let head = rt.emit(evs.first());
        let tail_acts = actions_of(mid, evs.drop_first());
        lemma_step_effects(rt, evs.first());
        lemma_cons_action(head, tail_acts);
        lemma_register_indices_range(mid, evs.drop_first());
        lemma_trace_counts(mid, evs.drop_first());
        lemma_counts_nonneg(tail_acts);
        let m = registrations_requested(mid);
        let b = registrations_requested(fin);
        assert(b >= m);
        match head {
            Action::RegisterPlugin(i) => {
                assert(i == a && m == a + 1);
                assert(seq![a] + range_seq(a + 1, b) =~= range_seq(a, b));
            },
            _ => {
                assert(m == a);
            },
        }
    }
}

/// ORDERING INVARIANT of the setup hook: in any admissible run from the
/// initial state, the runtime asks for the setup hook at most once; if it
/// asks at all, it has already asked for — and seen completed — every
/// plugin registration; and once the run has entered the event loop (when a
/// hook is attached), the hook was requested exactly once.
pub proof fn lemma_setup_once_after_registration(app: Application, evs: Seq<Event>)
    requires
        trace_ok(Runtime::initial(app), evs),
    ensures
        count_invoke_setup(actions_of(Runtime::initial(app), evs)) <= 1,
        count_invoke_setup(actions_of(Runtime::initial(app), evs)) == 1 ==> app.setup is Some
            && count_register(actions_of(Runtime::initial(app), evs)) == app.plugins@.len(),
        loop_entered(runs_to(Runtime::initial(app), evs)) && app.setup is Some
            ==> count_invoke_setup(actions_of(Runtime::initial(app), evs)) == 1,
        registrations_precede_setup(actions_of(Runtime::initial(app), evs)),
{
    let rt0 = Runtime::initial(app);
    lemma_trace_counts(rt0, evs);
    lemma_registrations_precede_setup(rt0, evs);
    let fin = runs_to(rt0, evs);
    if setup_requested(fin) {
        assert(registrations_requested(fin) == app.plugins@.len());
    }
    if loop_entered(fin) && app.setup is Some {
        assert(setup_requested(fin));
    }
}

/// FAILED SETUP ABORTS: if the setup hook reports failure anywhere in an
/// admissible run, the run ends in `FatalExit` carrying that setup error,
/// and the host is never asked to start — let alone serve — the event loop.
pub proof fn lemma_setup_failure_blocks_event_loop(app: Application, evs: Seq<Event>, i: int)
    requires
        trace_ok(Runtime::initial(app), evs),
        0 <= i < evs.len(),
        evs[i] is SetupFailed,
    ensures
        runs_to(Runtime::initial(app), evs).phase is FatalExit,
        runs_to(Runtime::initial(app), evs).fault matches Some(FatalError::Setup(_)),
        count_start_loop(actions_of(Runtime::initial(app), evs)) == 0,
        count_serve(actions_of(Runtime::initial(app), evs)) == 0,
{
    let rt0 = Runtime::initial(app);
    lemma_setup_failure_final(rt0, evs, i);
    lemma_trace_counts(rt0, evs);
}

/// Helper for [`lemma_setup_failure_blocks_event_loop`]: a `SetupFailed`
/// event is terminal, so the run's final state records the setup error.
proof fn lemma_setup_failure_final(rt: Runtime, evs: Seq<Event>, i: int)
    requires
        rt.inv(),
        trace_ok(rt, evs),
        0 <= i < evs.len(),
        evs[i] is SetupFailed,
    ensures
        runs_to(rt, evs).phase is FatalExit,
        runs_to(rt, evs).fault matches Some(FatalError::Setup(_)),
    decreases evs.len(),
{
    let mid = rt.next(evs.first());
    lemma_step_effects(rt, evs.first());
    if i == 0 {
        let rest = evs.drop_first();
        assert(mid.phase is FatalExit);
        assert(trace_ok(mid, rest));
        if rest.len() > 0 {
            assert(mid.admits(rest.first()));
            assert(false);
        }
        assert(rest.len() == 0);
        assert(runs_to(mid, rest) == mid);
        assert(runs_to(rt, evs) == runs_to(mid, rest));
    } else {
        assert(evs.drop_first()[i - 1] == evs[i]);
        lemma_setup_failure_final(mid, evs.drop_first(), i - 1);
    }
}

/// LAST WRITE WINS at run time: every setup invocation an admissible run
/// hands out names exactly the hook attached to the application — with
/// `Builder::with_setup` replacing any earlier hook, the hook attached
/// last.
pub proof fn lemma_invoked_hook_is_attached(app: Application, evs: Seq<Event>, h: SetupHook)
    requires
        trace_ok(Runtime::initial(app), evs),
        app.setup == Some(h),
    ensures
        invokes_only(actions_of(Runtime::initial(app), evs), h),
{
    lemma_invokes_only(Runtime::initial(app), evs, h);
}

/// Drives one whole bootstrap run through [`Runtime::step`]: absorbs the
/// events in order and returns every action the runtime handed out — which
/// is exactly [`actions_of`] of the run, so each property proved of the
/// traces holds of the returned actions.
pub fn replay(app: Application, events: Vec<Event>) -> (acts: Vec<Action>)
    requires
        trace_ok(Runtime::initial(app), events@),
    ensures
        acts@ == actions_of(Runtime::initial(app), events@),
{
    let ghost init = Runtime::initial(app);
    let ghost all = events@;
    let mut rt = Runtime::new(app);
    let mut remaining = events;
    let mut acts: Vec<Action> = Vec::new();
    while remaining.len() > 0
        invariant
            trace_ok(rt, remaining@),
            acts@ + actions_of(rt, remaining@) == actions_of(init, all),
        decreases remaining.len(),
    {
        let ghost rt_pre = rt;
        let ghost rem_pre = remaining@;
        let ghost acts_pre = acts@;
        let ev = remaining.remove(0);
        proof {
            assert(remaining@ =~= rem_pre.drop_first());
            assert(ev == rem_pre.first());
        }
        let a = rt.step(ev);
        acts.push(a);
        proof {
            assert(actions_of(rt_pre, rem_pre) == seq![rt_pre.emit(rem_pre.first())]
                + actions_of(rt, remaining@));
            assert(acts@ + actions_of(rt, remaining@) =~= acts_pre + actions_of(
                rt_pre,
                rem_pre,
            ));
        }
    }
    proof {
        assert(actions_of(rt, remaining@) =~= Seq::<Action>::empty());
        assert(acts@ + actions_of(rt, remaining@) =~= acts@);
    }
    acts
}

/// Helper for [`lemma_invoked_hook_is_attached`], generalized over the
/// starting state.
proof fn lemma_invokes_only(rt: Runtime, evs: Seq<Event>, h: SetupHook)
    requires
        rt.inv(),
        trace_ok(rt, evs),
        rt.app.setup == Some(h),
    ensures
        invokes_only(actions_of(rt, evs), h),
    decreases evs.len(),
{
    if evs.len() > 0 {
        let mid = rt.next(evs.first());
        lemma_step_effects(rt, evs.first());
        lemma_cons_action(rt.emit(evs.first()), actions_of(mid, evs.drop_first()));
        lemma_invokes_only(mid, evs.drop_first(), h);
    }
}

} // verus!
