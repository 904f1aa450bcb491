//! The behavioural laws of the event stream, stated and proved once over the
//! session and manager models: throttling and de-duplication of battery
//! updates, button events only on the rising edge, and idempotent disconnect
//! detection.

use vstd::prelude::*;

use crate::dualsense::{spec_mute_button_pressed, spec_parse_battery, ControllerEvent};
use crate::polling::{
    disconnect_events, removed_sessions, surviving_sessions, Session, BATTERY_POLL_INTERVAL_MS,
};

verus! {

/// Battery throttling, first half: once a read has sampled the battery at
/// `t1`, no read within the following throttle window emits another battery
/// update, whatever bytes it carries and whether or not they differ.
pub proof fn lemma_battery_throttled_in_window(
    s: Session,
    r1: Seq<u8>,
    t1: u64,
    r2: Seq<u8>,
    t2: u64,
)
    requires
        s.battery_due(t1),
        spec_parse_battery(r1, s.is_bluetooth) is Some,
        t1 <= t2,
        t2 - t1 < BATTERY_POLL_INTERVAL_MS,
    ensures
        !s.after_report(r1, t1).battery_emits(r2, t2),
{
}

/// Battery throttling, second half: a read after the window has elapsed,
/// whose reading differs from the sampled one, does emit a battery update.
pub proof fn lemma_battery_update_after_window(
    s: Session,
    r1: Seq<u8>,
    t1: u64,
    r2: Seq<u8>,
    t2: u64,
)
    requires
        s.battery_due(t1),
        spec_parse_battery(r1, s.is_bluetooth) is Some,
        t1 <= t2,
        t2 - t1 >= BATTERY_POLL_INTERVAL_MS,
        spec_parse_battery(r2, s.is_bluetooth) is Some,
        spec_parse_battery(r2, s.is_bluetooth) != spec_parse_battery(r1, s.is_bluetooth),
    ensures
        s.after_report(r1, t1).battery_emits(r2, t2),
{
}

/// De-duplication: after a read has sampled some battery reading, a later
/// read that decodes to the identical reading never emits a battery update,
/// however much time has passed.
pub proof fn lemma_battery_deduplicated(s: Session, r1: Seq<u8>, t1: u64, r2: Seq<u8>, t2: u64)
    requires
        s.battery_due(t1),
        spec_parse_battery(r1, s.is_bluetooth) is Some,
        spec_parse_battery(r2, s.is_bluetooth) == spec_parse_battery(r1, s.is_bluetooth),
    ensures
        !s.after_report(r1, t1).battery_emits(r2, t2),
{
}

/// A button event needs a rising edge: it is emitted only when the report
/// decodes to "pressed" and the previous decode saw "released".
pub proof fn lemma_button_event_needs_rising_edge(s: Session, report: Seq<u8>)
    requires
        s.button_emits(report),
    ensures
        spec_mute_button_pressed(report, s.is_bluetooth) == Some(true),
        !s.previous_mute_state,
{
}

/// Holding the button yields nothing: after a read that decoded "pressed", a
/// further read that still decodes "pressed" emits no button event.
pub proof fn lemma_button_held_emits_nothing(s: Session, r1: Seq<u8>, t1: u64, r2: Seq<u8>)
    requires
        spec_mute_button_pressed(r1, s.is_bluetooth) == Some(true),
        spec_mute_button_pressed(r2, s.is_bluetooth) == Some(true),
    ensures
        !s.after_report(r1, t1).button_emits(r2),
{
}

/// Releasing the button yields nothing: a read that decodes "released" never
/// emits a button event.
pub proof fn lemma_button_release_emits_nothing(s: Session, report: Seq<u8>)
    requires
        spec_mute_button_pressed(report, s.is_bluetooth) == Some(false),
    ensures
        !s.button_emits(report),
{
}

/// Disconnect idempotence: reconciling twice against the same observation
/// changes nothing the second time and emits no further disconnect event.
pub proof fn lemma_reconcile_idempotent(sessions: Seq<Session>, observed: Seq<String>)
    ensures
        surviving_sessions(surviving_sessions(sessions, observed), observed) == surviving_sessions(
            sessions,
            observed,
        ),
        removed_sessions(surviving_sessions(sessions, observed), observed) == Seq::<
            Session,
        >::empty(),
        disconnect_events(removed_sessions(surviving_sessions(sessions, observed), observed))
            == Seq::<ControllerEvent>::empty(),
    decreases sessions.len(),
{
    if sessions.len() == 0 {
        assert(surviving_sessions(sessions, observed) =~= Seq::<Session>::empty());
    } else {
        lemma_reconcile_idempotent(sessions.drop_last(), observed);
        let prefix = sessions.drop_last();
        let surv_prefix = surviving_sessions(prefix, observed);
        if crate::polling::seq_contains_path(observed, sessions.last().path@) {
            let surv = surv_prefix.push(sessions.last());
            assert(surv.drop_last() =~= surv_prefix);
            assert(surv.last() == sessions.last());
            assert(surviving_sessions(surv, observed) =~= surviving_sessions(
                surv_prefix,
                observed,
            ).push(sessions.last()));
            assert(removed_sessions(surv, observed) =~= removed_sessions(surv_prefix, observed));
        }
    }
    assert(disconnect_events(Seq::<Session>::empty()) =~= Seq::<ControllerEvent>::empty());
}

} // verus!
