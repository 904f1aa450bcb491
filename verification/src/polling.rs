//! Session tracking and the decisions of the polling loop.
//!
//! A `Session` is the live state kept for one open device; the
//! `ControllerPollingManager` owns at most one session per device path and
//! decides, from plain inputs (the set of paths seen on the bus, the bytes of
//! a read, a millisecond timestamp), which events to emit and how the tracked
//! state changes. The loop that performs the actual device I/O drives these
//! functions and forwards the returned events over a channel; nothing here
//! touches a device handle.

use vstd::prelude::*;

use crate::dualsense::{
    spec_mute_button_pressed, spec_parse_battery, mute_button_pressed, parse_battery,
    BatteryReport, ControllerEvent,
};

verus! {

/// Minimum time between two device scans of the bus.
pub const DEVICE_SCAN_INTERVAL_MS: u64 = 3000;

/// Minimum time between two battery samples of one session (the throttle
/// window): the physical sensor updates coarsely, so sampling faster than
/// this would only multiply identical readings.
pub const BATTERY_POLL_INTERVAL_MS: u64 = 10000;

/// Live state for one tracked device. At most one session exists per path;
/// the manager's well-formedness invariant enforces it.
pub struct Session {
    /// The stable device path that identifies the physical controller.
    pub path: String,
    /// Whether the device is connected over Bluetooth (shifts report offsets).
    pub is_bluetooth: bool,
    /// The pressed-state seen by the previous successful button decode, for
    /// edge detection.
    pub previous_mute_state: bool,
    /// When the battery was last sampled; `None` until the first successful
    /// battery decode, so a fresh session samples immediately.
    pub last_battery_poll_ms: Option<u64>,
    /// The last battery reading that was decoded, for de-duplication; `None`
    /// until the first successful battery decode.
    pub last_battery_report: Option<BatteryReport>,
}

impl Session {
    /// The state a session starts in, right after its device was opened.
    pub open spec fn spec_new(path: String, is_bluetooth: bool) -> Session {
        Session {
            path,
            is_bluetooth,
            previous_mute_state: false,
            last_battery_poll_ms: None,
            last_battery_report: None,
        }
    }

    /// Builds the state for a freshly opened device.
    pub fn new(path: String, is_bluetooth: bool) -> (s: Session)
        ensures
            s == Session::spec_new(path, is_bluetooth),
    {
        Session {
            path,
            is_bluetooth,
            previous_mute_state: false,
            last_battery_poll_ms: None,
            last_battery_report: None,
        }
    }

    /// Whether the battery may be sampled at `now_ms`: always on the first
    /// sample, afterwards only once the throttle window has elapsed.
    pub open spec fn battery_due(self, now_ms: u64) -> bool {
        match self.last_battery_poll_ms {
            None => true,
            Some(t) => t <= now_ms && now_ms - t >= BATTERY_POLL_INTERVAL_MS,
        }
    }

    /// Whether handling `report` at `now_ms` emits a battery event: the
    /// sample is due, the report decodes, and the reading differs from the
    /// last one emitted (or none was emitted yet).
    pub open spec fn battery_emits(self, report: Seq<u8>, now_ms: u64) -> bool {
        &&& self.battery_due(now_ms)
        &&& spec_parse_battery(report, self.is_bluetooth) is Some
        &&& spec_parse_battery(report, self.is_bluetooth) != self.last_battery_report
    }

    /// Whether handling `report` emits a button event: the report decodes to
    /// "pressed" and the previous decode saw "released" — the rising edge.
    pub open spec fn button_emits(self, report: Seq<u8>) -> bool {
        spec_mute_button_pressed(report, self.is_bluetooth) == Some(true)
            && !self.previous_mute_state
    }

    /// The session state after one successful read: a due, decodable battery
    /// sample stores the reading and the timestamp; a decodable button flag
    /// becomes the new previous pressed-state. Fields of a failed decode keep
    /// their values.
    pub open spec fn after_report(self, report: Seq<u8>, now_ms: u64) -> Session {
        let after_battery = if self.battery_due(now_ms) && spec_parse_battery(
            report,
            self.is_bluetooth,
        ) is Some {
            Session {
                path: self.path,
                is_bluetooth: self.is_bluetooth,
                previous_mute_state: self.previous_mute_state,
                last_battery_poll_ms: Some(now_ms),
                last_battery_report: spec_parse_battery(report, self.is_bluetooth),
            }
        } else {
            self
        };
        match spec_mute_button_pressed(report, self.is_bluetooth) {
            Some(pressed) => Session {
                path: after_battery.path,
                is_bluetooth: after_battery.is_bluetooth,
                previous_mute_state: pressed,
                last_battery_poll_ms: after_battery.last_battery_poll_ms,
                last_battery_report: after_battery.last_battery_report,
            },
            None => after_battery,
        }
    }

    /// The events one successful read emits, in order: the battery update, if
    /// any, then the button edge, if any.
    pub open spec fn step_events(self, report: Seq<u8>, now_ms: u64) -> Seq<ControllerEvent> {
        let battery = if self.battery_emits(report, now_ms) {
            seq![
                ControllerEvent::BatteryUpdate(
                    self.path,
                    spec_parse_battery(report, self.is_bluetooth)->Some_0,
                ),
            ]
        } else {
            Seq::<ControllerEvent>::empty()
        };
        let button = if self.button_emits(report) {
            seq![ControllerEvent::MuteButtonPressed(self.path)]
        } else {
            Seq::<ControllerEvent>::empty()
        };
        battery + button
    }
}

/// No two sessions in the list are for the same device path.
pub open spec fn distinct_paths(sessions: Seq<Session>) -> bool {
    forall|i: int, j: int|
        0 <= i < j < sessions.len() ==> sessions[i].path@ != sessions[j].path@
}

/// Whether some session in the list is for `path`.
pub open spec fn tracks_path(sessions: Seq<Session>, path: Seq<char>) -> bool {
    exists|i: int| 0 <= i < sessions.len() && sessions[i].path@ == path
}

/// The index of the session for `path`; meaningful only when `tracks_path`
/// holds, and unique under `distinct_paths`.
pub open spec fn session_index(sessions: Seq<Session>, path: Seq<char>) -> int {
    choose|i: int| 0 <= i < sessions.len() && sessions[i].path@ == path
}

/// Whether `path` occurs in a list of observed device paths.
pub open spec fn seq_contains_path(paths: Seq<String>, path: Seq<char>) -> bool {
    exists|i: int| 0 <= i < paths.len() && paths[i]@ == path
}

/// The sessions that survive a scan: those whose path was observed on the
/// bus, in their original order.
pub open spec fn surviving_sessions(sessions: Seq<Session>, observed: Seq<String>) -> Seq<Session>
    decreases sessions.len(),
{
    if sessions.len() == 0 {
        Seq::<Session>::empty()
    } else {
        let rest = surviving_sessions(sessions.drop_last(), observed);
        if seq_contains_path(observed, sessions.last().path@) {
            rest.push(sessions.last())
        } else {
            rest
        }
    }
}

/// The sessions a scan drops: those whose path was not observed, in their
/// original order.
pub open spec fn removed_sessions(sessions: Seq<Session>, observed: Seq<String>) -> Seq<Session>
    decreases sessions.len(),
{
    if sessions.len() == 0 {
        Seq::<Session>::empty()
    } else {
        let rest = removed_sessions(sessions.drop_last(), observed);
        if seq_contains_path(observed, sessions.last().path@) {
            rest
        } else {
            rest.push(sessions.last())
        }
    }
}

/// One disconnect event per dropped session, in the same order.
pub open spec fn disconnect_events(removed: Seq<Session>) -> Seq<ControllerEvent> {
    removed.map_values(|s: Session| ControllerEvent::DeviceDisconnected(s.path))
}

/// The observed paths that no session is tracked for yet, in observation
/// order: the devices a scan should try to open.
pub open spec fn untracked_paths(sessions: Seq<Session>, observed: Seq<String>) -> Seq<String>
    decreases observed.len(),
{
    if observed.len() == 0 {
        Seq::<String>::empty()
    } else {
        let rest = untracked_paths(sessions, observed.drop_last());
        if tracks_path(sessions, observed.last()@) {
            rest
        } else {
            rest.push(observed.last())
        }
    }
}

/// Every session that survives a scan was tracked before it.
pub proof fn lemma_surviving_is_subsequence(sessions: Seq<Session>, observed: Seq<String>)
    ensures
        forall|k: int|
            0 <= k < surviving_sessions(sessions, observed).len() ==> exists|i: int|
                0 <= i < sessions.len() && sessions[i] == #[trigger] surviving_sessions(
                    sessions,
                    observed,
                )[k],
    decreases sessions.len(),
{
    if sessions.len() > 0 {
        lemma_surviving_is_subsequence(sessions.drop_last(), observed);
        let surv = surviving_sessions(sessions, observed);
        let rest = surviving_sessions(sessions.drop_last(), observed);
        assert forall|k: int| 0 <= k < surv.len() implies exists|i: int|
            0 <= i < sessions.len() && sessions[i] == #[trigger] surv[k] by {
            if k < rest.len() {
                let i = choose|i: int|
                    0 <= i < sessions.drop_last().len() && sessions.drop_last()[i] == rest[k];
                assert(sessions[i] == surv[k]);
            } else {
                assert(surv[k] == sessions.last());
                assert(sessions[sessions.len() - 1] == surv[k]);
            }
        }
    }
}

/// A scan never duplicates a session: if no two tracked sessions share a
/// path, neither do two surviving ones.
pub proof fn lemma_surviving_preserves_distinct(sessions: Seq<Session>, observed: Seq<String>)
    requires
        distinct_paths(sessions),
    ensures
        distinct_paths(surviving_sessions(sessions, observed)),
    decreases sessions.len(),
{
    if sessions.len() > 0 {
        let prefix = sessions.drop_last();
        assert(distinct_paths(prefix));
        lemma_surviving_preserves_distinct(prefix, observed);
        lemma_surviving_is_subsequence(prefix, observed);
        let rest = surviving_sessions(prefix, observed);
        if seq_contains_path(observed, sessions.last().path@) {
            assert forall|i: int, j: int|
                0 <= i < j < rest.push(sessions.last()).len() implies rest.push(
                sessions.last(),
            )[i].path@ != rest.push(sessions.last())[j].path@ by {
                if j < rest.len() {
                    assert(rest[i].path@ != rest[j].path@);
                } else {
                    let i0 = choose|i0: int| 0 <= i0 < prefix.len() && prefix[i0] == rest[i];
                    assert(sessions[i0].path@ != sessions[sessions.len() - 1].path@);
                }
            }
        }
    }
}

/// Linear search for `path` in a list of observed paths.
fn contains_path(paths: &Vec<String>, path: &String) -> (r: bool)
    ensures
        r == seq_contains_path(paths@, path@),
{
    let n = paths.len();
    let mut k: usize = 0;
    while k < n
        invariant
            n == paths@.len(),
            k <= n,
            forall|j: int| 0 <= j < k ==> paths@[j]@ != path@,
        decreases n - k,
    {
        if paths[k] == *path {
            return true;
        }
        k = k + 1;
    }
    false
}

/// Owns the tracked sessions and the scan timer, and makes every decision of
/// the polling loop: which devices to drop, which to open, what each read
/// emits. The loop around it only performs the I/O these decisions call for.
pub struct ControllerPollingManager {
    /// The tracked sessions, one per open device, in connection order.
    pub sessions: Vec<Session>,
    /// When the last device scan ran; `None` before the first scan, so a
    /// fresh manager scans immediately.
    pub last_scan_ms: Option<u64>,
}

impl ControllerPollingManager {
    /// The manager's invariant: at most one session per device path.
    pub open spec fn wf(self) -> bool {
        distinct_paths(self.sessions@)
    }

    /// Whether a session for `path` is currently tracked.
    pub open spec fn tracks(self, path: Seq<char>) -> bool {
        tracks_path(self.sessions@, path)
    }

    /// Whether a scan is due at `now_ms`: immediately for a fresh manager,
    /// afterwards once the scan interval has elapsed.
    pub open spec fn scan_due(self, now_ms: u64) -> bool {
        match self.last_scan_ms {
            None => true,
            Some(t) => t <= now_ms && now_ms - t >= DEVICE_SCAN_INTERVAL_MS,
        }
    }

    /// A fresh manager: nothing tracked, first scan immediately due.
    pub fn new() -> (m: ControllerPollingManager)
        ensures
            m.wf(),
            m.sessions@.len() == 0,
            m.last_scan_ms is None,
    {
        ControllerPollingManager { sessions: Vec::new(), last_scan_ms: None }
    }

    /// Whether a session for `path` is currently tracked.
    pub fn is_tracked(&self, path: &String) -> (r: bool)
        ensures
            r == self.tracks(path@),
    {
        let n = self.sessions.len();
        let mut k: usize = 0;
        while k < n
            invariant
                n == self.sessions@.len(),
                k <= n,
                forall|j: int| 0 <= j < k ==> self.sessions@[j].path@ != path@,
            decreases n - k,
        {
            if self.sessions[k].path == *path {
                return true;
            }
            k = k + 1;
        }
        false
    }

    /// Finds the index of the session for `path`, if one is tracked.
    fn find_session(&self, path: &String) -> (r: Option<usize>)
        requires
            self.wf(),
        ensures
            r is Some <==> self.tracks(path@),
            r is Some ==> 0 <= r->Some_0 < self.sessions@.len()
                && self.sessions@[r->Some_0 as int].path@ == path@
                && r->Some_0 == session_index(self.sessions@, path@),
    {
        let n = self.sessions.len();
        let mut k: usize = 0;
        while k < n
            invariant
                self.wf(),
                n == self.sessions@.len(),
                k <= n,
                forall|j: int| 0 <= j < k ==> self.sessions@[j].path@ != path@,
            decreases n - k,
        {
            if self.sessions[k].path == *path {
                proof {
                    let i = session_index(self.sessions@, path@);
                    assert(0 <= i < self.sessions@.len() && self.sessions@[i].path@ == path@);
                    assert(i == k) by {
                        if i != k {
                            assert(self.sessions@[i].path@ != self.sessions@[k as int].path@);
                        }
                    }
                }
                return Some(k);
            }
            k = k + 1;
        }
        None
    }

    /// Drops every tracked session whose path the scan no longer observed,
    /// and returns one disconnect event per dropped session, in session
    /// order. Tracked sessions whose path is still observed are untouched.
    /// Calling this again with the same observation drops nothing more.
    pub fn reconcile_removed(&mut self, observed: &Vec<String>) -> (evs: Vec<ControllerEvent>)
        requires
            old(self).wf(),
        ensures
            final(self).wf(),
            final(self).sessions@ == surviving_sessions(old(self).sessions@, observed@),
            final(self).last_scan_ms == old(self).last_scan_ms,
            evs@ == disconnect_events(removed_sessions(old(self).sessions@, observed@)),
    {
        let ghost orig = self.sessions@;
        let ghost orig_scan = self.last_scan_ms;
        let mut kept: Vec<Session> = Vec::new();
        let mut evs: Vec<ControllerEvent> = Vec::new();
        let ghost mut i: int = 0;
        while self.sessions.len() > 0
            invariant
                self.last_scan_ms == orig_scan,
                0 <= i <= orig.len(),
                self.sessions@ == orig.subrange(i, orig.len() as int),
                kept@ == surviving_sessions(orig.subrange(0, i), observed@),
                evs@ == disconnect_events(removed_sessions(orig.subrange(0, i), observed@)),
            decreases self.sessions.len(),
        {
            let s = self.sessions.remove(0);
            proof {
                assert(s == orig[i]);
                assert(self.sessions@ == orig.subrange(i + 1, orig.len() as int)) by {
                    assert(orig.subrange(i, orig.len() as int).remove(0) =~= orig.subrange(
                        i + 1,
                        orig.len() as int,
                    ));
                }
                assert(orig.subrange(0, i + 1).drop_last() =~= orig.subrange(0, i));
                assert(orig.subrange(0, i + 1).last() == orig[i]);
            }
            if contains_path(observed, &s.path) {
                kept.push(s);
            } else {
                evs.push(ControllerEvent::DeviceDisconnected(s.path));
                proof {
                    assert(evs@ =~= disconnect_events(
                        removed_sessions(orig.subrange(0, i + 1), observed@),
                    ));
                }
            }
            proof {
                i = i + 1;
            }
        }
        proof {
            assert(orig.subrange(0, orig.len() as int) =~= orig);
            lemma_surviving_preserves_distinct(orig, observed@);
        }
        self.sessions = kept;
        evs
    }

    /// The observed paths that are not tracked yet, in observation order:
    /// the devices this scan should try to open. Opening is attempted
    /// outside; each success is reported back through `connect_session`, and
    /// a failure leaves the path untracked so the next scan retries it.
    pub fn paths_to_open(&self, observed: &Vec<String>) -> (r: Vec<String>)
        ensures
            r@ == untracked_paths(self.sessions@, observed@),
    {
        let n = observed.len();
        let mut r: Vec<String> = Vec::new();
        let mut k: usize = 0;
        while k < n
            invariant
                n == observed@.len(),
                k <= n,
                r@ == untracked_paths(self.sessions@, observed@.subrange(0, k as int)),
            decreases n - k,
        {
            proof {
                assert(observed@.subrange(0, k + 1).drop_last() =~= observed@.subrange(0, k as int));
                assert(observed@.subrange(0, k + 1).last() == observed@[k as int]);
            }
            let p = &observed[k];
            if !self.is_tracked(p) {
                r.push(p.clone());
            }
            k = k + 1;
        }
        proof {
            assert(observed@.subrange(0, n as int) =~= observed@);
        }
        r
    }

    /// Records that the device at `path` was opened, creating its session,
    /// and returns the connect event to emit. The caller performs one
    /// best-effort initial read right after, through `handle_report`.
    pub fn connect_session(&mut self, path: String, is_bluetooth: bool) -> (ev: ControllerEvent)
        requires
            old(self).wf(),
            !old(self).tracks(path@),
        ensures
            final(self).wf(),
            final(self).sessions@ == old(self).sessions@.push(Session::spec_new(path, is_bluetooth)),
            final(self).last_scan_ms == old(self).last_scan_ms,
            ev == ControllerEvent::DeviceConnected(path),
    {
        let ev = ControllerEvent::DeviceConnected(path.clone());
        self.sessions.push(Session::new(path, is_bluetooth));
        proof {
            assert forall|i: int, j: int|
                0 <= i < j < self.sessions@.len() implies self.sessions@[i].path@
                != self.sessions@[j].path@ by {
                if j == self.sessions@.len() - 1 {
                    assert(!tracks_path(old(self).sessions@, path@));
                    assert(old(self).sessions@[i].path@ != path@);
                }
            }
        }
        ev
    }

    /// Handles one successful, non-empty read from the device at `path`:
    /// decodes the battery (only when the throttle window allows a sample)
    /// and the button flag, updates the session, and returns the events to
    /// emit — a battery update only for a reading that differs from the last
    /// one emitted, a button event only on the released-to-pressed edge. A
    /// path that is not tracked changes nothing and emits nothing.
    pub fn handle_report(&mut self, path: &String, report: &[u8], now_ms: u64) -> (evs: Vec<
        ControllerEvent,
    >)
        requires
            old(self).wf(),
        ensures
            final(self).wf(),
            final(self).last_scan_ms == old(self).last_scan_ms,
            !old(self).tracks(path@) ==> final(self).sessions@ == old(self).sessions@ && evs@
                == Seq::<ControllerEvent>::empty(),
            old(self).tracks(path@) ==> final(self).sessions@ == old(self).sessions@.update(
                session_index(old(self).sessions@, path@),
                old(self).sessions@[session_index(old(self).sessions@, path@)].after_report(
                    report@,
                    now_ms,
                ),
            ),
            old(self).tracks(path@) ==> evs@ == old(self).sessions@[session_index(
                old(self).sessions@,
                path@,
            )].step_events(report@, now_ms),
    {
        let found = self.find_session(path);
        match found {
            None => Vec::new(),
            Some(j) => {
                let ghost orig = self.sessions@;
                let ghost s0 = orig[j as int];
                let mut s = self.sessions.remove(j);
                let mut evs: Vec<ControllerEvent> = Vec::new();
                let due = match s.last_battery_poll_ms {
                    None => true,
                    Some(t) => t <= now_ms && now_ms - t >= BATTERY_POLL_INTERVAL_MS,
                };
                assert(due == s0.battery_due(now_ms));
                if due {
                    match parse_battery(report, s.is_bluetooth) {
                        Some(rep) => {
                            let changed = match s.last_battery_report {
                                None => true,
                                Some(prev) => prev != rep,
                            };
                            assert(changed == s0.battery_emits(report@, now_ms));
                            if changed {
                                evs.push(ControllerEvent::BatteryUpdate(s.path.clone(), rep));
                            }
                            s.last_battery_report = Some(rep);
                            s.last_battery_poll_ms = Some(now_ms);
                        },
                        None => {},
                    }
                }
                match mute_button_pressed(report, s.is_bluetooth) {
                    Some(pressed) => {
                        if pressed && !s.previous_mute_state {
                            evs.push(ControllerEvent::MuteButtonPressed(s.path.clone()));
                        }
                        s.previous_mute_state = pressed;
                    },
                    None => {},
                }
                proof {
                    assert(s == s0.after_report(report@, now_ms));
                    assert(evs@ =~= s0.step_events(report@, now_ms));
                }
                self.sessions.insert(j, s);
                proof {
                    assert(self.sessions@ =~= orig.update(j as int, s));
                    assert forall|i2: int, j2: int|
                        0 <= i2 < j2 < self.sessions@.len() implies self.sessions@[i2].path@
                        != self.sessions@[j2].path@ by {
                        assert(self.sessions@[i2].path@ == orig[i2].path@);
                        assert(self.sessions@[j2].path@ == orig[j2].path@);
                    }
                }
                evs
            },
        }
    }

    /// Drops the session for a path whose read failed with a true hardware
    /// error, and returns the disconnect event to emit — the fast disconnect
    /// path, quicker than waiting for the next scan. Returns `None`, and
    /// changes nothing, if the path is not tracked, so reporting the same
    /// failure twice emits only one event.
    pub fn disconnect_failed(&mut self, path: &String) -> (ev: Option<ControllerEvent>)
        requires
            old(self).wf(),
        ensures
            final(self).wf(),
            final(self).last_scan_ms == old(self).last_scan_ms,
            ev is Some <==> old(self).tracks(path@),
            !old(self).tracks(path@) ==> final(self).sessions@ == old(self).sessions@,
            old(self).tracks(path@) ==> final(self).sessions@ == old(self).sessions@.remove(
                session_index(old(self).sessions@, path@),
            ),
            old(self).tracks(path@) ==> ev == Some(
                ControllerEvent::DeviceDisconnected(
                    old(self).sessions@[session_index(old(self).sessions@, path@)].path,
                ),
            ),
            !final(self).tracks(path@),
    {
        let found = self.find_session(path);
        match found {
            None => None,
            Some(j) => {
                let ghost orig = self.sessions@;
                let s = self.sessions.remove(j);
                proof {
                    assert forall|i2: int, j2: int|
                        0 <= i2 < j2 < self.sessions@.len() implies self.sessions@[i2].path@
                        != self.sessions@[j2].path@ by {
                        if i2 < j {
                            assert(self.sessions@[i2] == orig[i2]);
                        } else {
                            assert(self.sessions@[i2] == orig[i2 + 1]);
                        }
                        if j2 < j {
                            assert(self.sessions@[j2] == orig[j2]);
                        } else {
                            assert(self.sessions@[j2] == orig[j2 + 1]);
                        }
                    }
                    assert forall|i2: int|
                        0 <= i2 < self.sessions@.len() implies self.sessions@[i2].path@
                        != path@ by {
                        if i2 < j {
                            assert(self.sessions@[i2] == orig[i2]);
                            assert(orig[i2].path@ != orig[j as int].path@);
                        } else {
                            assert(self.sessions@[i2] == orig[i2 + 1]);
                            assert(orig[i2 + 1].path@ != orig[j as int].path@);
                        }
                    }
                }
                Some(ControllerEvent::DeviceDisconnected(s.path))
            },
        }
    }

    /// The paths of all tracked sessions, in session order: the devices the
    /// loop should read from this tick.
    pub fn tracked_paths(&self) -> (r: Vec<String>)
        ensures
            r@ == self.sessions@.map_values(|s: Session| s.path),
    {
        let n = self.sessions.len();
        let mut r: Vec<String> = Vec::new();
        let mut k: usize = 0;
        while k < n
            invariant
                n == self.sessions@.len(),
                k <= n,
                r@ == self.sessions@.subrange(0, k as int).map_values(|s: Session| s.path),
            decreases n - k,
        {
            r.push(self.sessions[k].path.clone());
            proof {
                assert(r@ =~= self.sessions@.subrange(0, k + 1).map_values(
                    (|s: Session| s.path),
                ));
            }
            k = k + 1;
        }
        proof {
            assert(self.sessions@.subrange(0, n as int) =~= self.sessions@);
        }
        r
    }

    /// Decides whether a device scan should run at `now_ms`, and if so starts
    /// it by recording the time. The loop calls this every tick and performs
    /// the bus enumeration only when it returns true.
    pub fn begin_scan(&mut self, now_ms: u64) -> (due: bool)
        ensures
            due == old(self).scan_due(now_ms),
            final(self).sessions@ == old(self).sessions@,
            final(self).last_scan_ms == (if due {
                Some(now_ms)
            } else {
                old(self).last_scan_ms
            }),
    {
        let due = match self.last_scan_ms {
            None => true,
            Some(t) => t <= now_ms && now_ms - t >= DEVICE_SCAN_INTERVAL_MS,
        };
        if due {
            self.last_scan_ms = Some(now_ms);
        }
        due
    }
}

/// Builds the state for a new polling session: nothing tracked and the first
/// scan immediately due. The unverified shell around the crate owns the rest
/// of the setup — the HID context, the event channel, and the thread that
/// runs the loop — and hands every decision to the manager returned here.
pub fn setup_controller_polling() -> (m: ControllerPollingManager)
    ensures
        m.wf(),
        m.sessions@.len() == 0,
        m.last_scan_ms is None,
{
    ControllerPollingManager::new()
}

} // verus!
