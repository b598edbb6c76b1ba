use http_browse::idle::{
    IdleEvent, IdleLabel, IdleMachine, PendingTimer, Resolution, TimedIdleEvent, DEBOUNCE_MS,
};

fn ev(event: IdleEvent, at: u64) -> TimedIdleEvent {
    TimedIdleEvent { event, at }
}

#[test]
fn static_page_complete_resolves_initial() {
    // A static page, document already complete, no network calls: the signal
    // resolves with label `initial`, never `xhr` or `fetch`.
    let mut m = IdleMachine::new(true, 0);
    assert_eq!(m.timer, Some(PendingTimer { deadline: DEBOUNCE_MS, label: IdleLabel::Initial }));
    m.step(ev(IdleEvent::TimerFire, DEBOUNCE_MS));
    assert_eq!(m.settled, Some(Resolution { label: IdleLabel::Initial, at: DEBOUNCE_MS }));
}

#[test]
fn static_page_loading_resolves_load() {
    // A static page still loading: the load event arms the quiet timer and
    // the signal resolves with label `load`.
    let mut m = IdleMachine::new(false, 0);
    assert_eq!(m.timer, None);
    assert_eq!(m.settled, None);
    m.step(ev(IdleEvent::DocLoad, 100));
    assert_eq!(m.timer, Some(PendingTimer { deadline: 600, label: IdleLabel::Load }));
    m.step(ev(IdleEvent::TimerFire, 600));
    assert_eq!(m.settled, Some(Resolution { label: IdleLabel::Load, at: 600 }));
}

#[test]
fn request_start_cancels_quiet_timer() {
    let mut m = IdleMachine::new(true, 0);
    m.step(ev(IdleEvent::RequestStart, 100));
    assert_eq!(m.timer, None);
    assert_eq!(m.active, 1);
    // The cancelled timer's old deadline passing is a no-op.
    m.step(ev(IdleEvent::TimerFire, DEBOUNCE_MS));
    assert_eq!(m.settled, None);
}

#[test]
fn sequential_fetches_resolve_only_after_last_completion_plus_debounce() {
    // Three sequential fetch-style requests with gaps smaller than the
    // debounce interval: the signal resolves only at the last completion
    // plus one full debounce interval, never earlier.
    let mut m = IdleMachine::new(true, 0);
    m.step(ev(IdleEvent::RequestStart, 100));
    m.step(ev(IdleEvent::FetchEnd, 200));
    assert_eq!(m.timer, Some(PendingTimer { deadline: 700, label: IdleLabel::Fetch }));
    m.step(ev(IdleEvent::RequestStart, 300)); // gap 100 < DEBOUNCE_MS
    assert_eq!(m.timer, None);
    m.step(ev(IdleEvent::FetchEnd, 400));
    m.step(ev(IdleEvent::RequestStart, 600)); // gap 200 < DEBOUNCE_MS
    m.step(ev(IdleEvent::FetchEnd, 700));
    // Deadlines of cancelled timers pass without effect.
    m.step(ev(IdleEvent::TimerFire, 700));
    m.step(ev(IdleEvent::TimerFire, 900));
    assert_eq!(m.settled, None);
    // Last completion at 700; the armed deadline is 700 + DEBOUNCE_MS.
    assert_eq!(m.timer, Some(PendingTimer { deadline: 1200, label: IdleLabel::Fetch }));
    m.step(ev(IdleEvent::TimerFire, 1200));
    let r = m.settled.expect("the quiet timer fired undisturbed");
    assert_eq!(r.label, IdleLabel::Fetch);
    assert_eq!(r.at, 1200);
    assert!(r.at >= m.last_activity + DEBOUNCE_MS);
    assert_eq!(m.active, 0);
}

#[test]
fn xhr_completion_carries_xhr_label() {
    let mut m = IdleMachine::new(true, 0);
    m.step(ev(IdleEvent::RequestStart, 50));
    m.step(ev(IdleEvent::XhrEnd, 150));
    assert_eq!(m.timer, Some(PendingTimer { deadline: 650, label: IdleLabel::Xhr }));
    m.step(ev(IdleEvent::TimerFire, 650));
    assert_eq!(m.settled, Some(Resolution { label: IdleLabel::Xhr, at: 650 }));
}

#[test]
fn resolution_happens_exactly_once() {
    // Once resolved, every further trigger is a no-op: the label, the
    // instant, and the whole machine stay as they are.
    let mut m = IdleMachine::new(true, 0);
    m.step(ev(IdleEvent::TimerFire, DEBOUNCE_MS));
    let settled = m;
    m.step(ev(IdleEvent::RequestStart, 600));
    m.step(ev(IdleEvent::FetchEnd, 700));
    m.step(ev(IdleEvent::DocLoad, 800));
    m.step(ev(IdleEvent::TimerFire, 1200));
    assert_eq!(m, settled);
    assert_eq!(m.settled, Some(Resolution { label: IdleLabel::Initial, at: DEBOUNCE_MS }));
}

#[test]
fn load_event_is_a_fallback_independent_of_the_counter() {
    // The document's load event arms the quiet timer even while a request is
    // still in flight: whichever path settles first wins.
    let mut m = IdleMachine::new(false, 0);
    m.step(ev(IdleEvent::RequestStart, 50));
    m.step(ev(IdleEvent::DocLoad, 100));
    assert_eq!(m.active, 1);
    assert_eq!(m.timer, Some(PendingTimer { deadline: 600, label: IdleLabel::Load }));
    m.step(ev(IdleEvent::TimerFire, 600));
    assert_eq!(m.settled, Some(Resolution { label: IdleLabel::Load, at: 600 }));
}

#[test]
fn completion_without_a_tracked_start_still_arms_the_timer() {
    // A completion observed with nothing counted in flight keeps the counter
    // at its floor and still arms the quiet timer, as the instrumented page
    // does when the counter is not positive.
    let mut m = IdleMachine::new(false, 0);
    m.step(ev(IdleEvent::XhrEnd, 100));
    assert_eq!(m.active, 0);
    assert_eq!(m.timer, Some(PendingTimer { deadline: 600, label: IdleLabel::Xhr }));
}

#[test]
fn endless_polling_never_settles() {
    // A page that never stops issuing fetch requests, with intervals shorter
    // than the debounce: the signal never resolves and the call would hang.
    let mut m = IdleMachine::new(true, 0);
    let mut t: u64 = 100;
    for _ in 0..50 {
        m.step(ev(IdleEvent::RequestStart, t));
        m.step(ev(IdleEvent::FetchEnd, t + 100));
        // The re-armed deadline is never reached: the next poll starts
        // 300 ms after the completion, inside the debounce interval.
        t += 400;
    }
    assert_eq!(m.settled, None);
    // Even firing at every stale deadline resolves nothing.
    let mut fire: u64 = 0;
    while fire < t {
        m.step(ev(IdleEvent::TimerFire, fire));
        fire += 100;
    }
    assert_eq!(m.settled, None);
}
