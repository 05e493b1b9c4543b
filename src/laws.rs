use vstd::prelude::*;
use crate::alarm::{
    after_opened, after_play, has_sink, has_worker, stop_plan_of, AudioState, PlaybackPhase,
    StopPlan,
};
use crate::clicker::{
    after_press, configured, cycle_clicks, cycle_sleep, effective_interval, rebound, ClickerState, Rebind,
};
use crate::config::{button_for_name, click_type_for_name, clicks_per_cycle};
use crate::keys::{key_for_name, TriggerKey};

verus! {

/// The state after the trigger key is changed to each name of `names` in turn.
pub open spec fn after_bindings(s: ClickerState, names: Seq<Seq<char>>) -> ClickerState
    decreases names.len(),
{
    if names.len() == 0 {
        s
    } else {
        rebound(after_bindings(s, names.drop_last()), key_for_name(names.last()))
    }
}

/// After any non-empty run of trigger-key changes exactly one key is bound,
/// the one named last, and a press of any other key changes nothing, whether
/// the modifier is held or not.
pub proof fn lemma_last_binding_wins(
    s: ClickerState,
    names: Seq<Seq<char>>,
    other: TriggerKey,
    modifier_held: bool,
)
    requires
        names.len() > 0,
        other != key_for_name(names.last()),
    ensures
        after_bindings(s, names).bound_key == Some(key_for_name(names.last())),
        after_bindings(s, names).wf(),
        after_press(after_bindings(s, names), other, modifier_held) == after_bindings(s, names),
{
}

/// The keys bound with the input capability, as the state records them.
pub open spec fn installed_keys(s: ClickerState) -> Set<TriggerKey> {
    match s.bound_key {
        Some(k) => set![k],
        None => Set::empty(),
    }
}

/// The keys bound with the input capability once a rebind plan has been carried out.
pub open spec fn after_rebind(installed: Set<TriggerKey>, plan: Rebind) -> Set<TriggerKey> {
    match plan.unbind {
        Some(k) => installed.remove(k).insert(plan.bind),
        None => installed.insert(plan.bind),
    }
}

/// Carrying out the plan of a trigger-key change leaves exactly one key bound
/// with the input capability, the new one, and the state records it.
pub proof fn lemma_rebind_keeps_one_binding(s: ClickerState, name: Seq<char>)
    requires
        s.wf(),
    ensures
        after_rebind(
            installed_keys(s),
            Rebind { unbind: s.bound_key, bind: key_for_name(name) },
        ) == set![key_for_name(name)],
        installed_keys(rebound(s, key_for_name(name))) == set![key_for_name(name)],
{
    let key = key_for_name(name);
    let plan = Rebind { unbind: s.bound_key, bind: key };
    assert(after_rebind(installed_keys(s), plan) =~= set![key]);
}

/// A press of the bound trigger with the modifier held flips the run flag, so
/// two presses restore it; a press without the modifier changes nothing.
pub proof fn lemma_toggle_alternates(s: ClickerState, key: TriggerKey)
    requires
        s.bound_key == Some(key),
    ensures
        after_press(s, key, true).running == !s.running,
        after_press(after_press(s, key, true), key, true) == s,
        forall|k: TriggerKey| after_press(s, k, false) == s,
{
}

/// On a running clicker, the cycle after a configuration update emits the
/// configured button as many times as the configured pattern asks and then
/// waits the configured interval; applying the same update twice leaves the
/// state that one update leaves.
pub proof fn lemma_configuration_read_back(
    s: ClickerState,
    interval: u64,
    button: Seq<char>,
    click_type: Seq<char>,
)
    requires
        s.running,
    ensures
        cycle_clicks(configured(s, interval, button, click_type), true).len() == clicks_per_cycle(
            click_type_for_name(click_type),
        ),
        forall|i: int|
            0 <= i < cycle_clicks(configured(s, interval, button, click_type), true).len()
                ==> #[trigger] cycle_clicks(configured(s, interval, button, click_type), true)[i]
                == button_for_name(button),
        cycle_sleep(configured(s, interval, button, click_type), true) == effective_interval(
            interval,
        ),
        configured(configured(s, interval, button, click_type), interval, button, click_type)
            == configured(s, interval, button, click_type),
{
}

/// A play request that opened its session is stopped by stopping the sink and
/// joining the worker, which leaves the alarm idle with neither; one whose
/// opening failed is idle already. Stopping an idle alarm asks nothing of the
/// playback resources.
pub proof fn lemma_play_then_stop(s: AudioState, opened: bool)
    requires
        s.phase is Idle,
    ensures
        stop_plan_of(after_play(s)).join_worker,
        opened ==> stop_plan_of(after_opened(after_play(s), opened)) == (StopPlan {
            stop_sink: true,
            join_worker: true,
        }),
        !opened ==> after_opened(after_play(s), opened).phase is Idle,
        !has_worker(AudioState { phase: PlaybackPhase::Idle }),
        !has_sink(AudioState { phase: PlaybackPhase::Idle }),
        stop_plan_of(AudioState { phase: PlaybackPhase::Idle }) == (StopPlan {
            stop_sink: false,
            join_worker: false,
        }),
{
}

/// Whatever the state, stopping stops the published sink and joins the worker
/// whenever there is one, so no playback resource outlives the stop.
pub proof fn lemma_stop_releases_device(s: AudioState)
    ensures
        has_sink(s) ==> stop_plan_of(s).stop_sink,
        has_worker(s) ==> stop_plan_of(s).join_worker,
        has_sink(s) ==> has_worker(s),
{
}

} // verus!
