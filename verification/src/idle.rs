use vstd::prelude::*;

verus! {

/// Quiet-period length in milliseconds: the page is judged settled once no
/// tracked network request has been active for this long.
pub const DEBOUNCE_MS: u64 = 500;

/// Which heuristic path resolved the idle signal. The label is not surfaced
/// to the caller; it identifies the trigger for diagnostics and testing.
#[derive(Debug, Clone, Copy, PartialEq, Eq)]
pub enum IdleLabel {
    /// The document was already complete, with no request in flight, when
    /// observation began.
    Initial,
    /// The document's load event fired.
    Load,
    /// The last in-flight XHR-style request completed.
    Xhr,
    /// The last in-flight fetch-style request completed.
    Fetch,
}

/// True of the labels produced by quiescence of the request counter, as
/// opposed to document readiness.
pub open spec fn network_label(label: IdleLabel) -> bool {
    label is Xhr || label is Fetch
}

/// A quiet timer that has been armed and neither fired nor been cancelled.
#[derive(Debug, Clone, Copy, PartialEq, Eq)]
pub struct PendingTimer {
    /// Absolute instant, in milliseconds, at which the timer fires.
    pub deadline: u64,
    /// Label the idle signal will carry if the timer fires undisturbed.
    pub label: IdleLabel,
}

/// The resolved idle signal.
#[derive(Debug, Clone, Copy, PartialEq, Eq)]
pub struct Resolution {
    /// Which heuristic path produced the resolution.
    pub label: IdleLabel,
    /// Absolute instant at which the signal resolved.
    pub at: u64,
}

/// One observation made inside the page by the idle-detection script.
#[derive(Debug, Clone, Copy, PartialEq, Eq)]
pub enum IdleEvent {
    /// An XHR- or fetch-style request started.
    RequestStart,
    /// An XHR-style request completed (success and failure count alike).
    XhrEnd,
    /// A fetch-style request completed (success and failure count alike).
    FetchEnd,
    /// The document's load event fired.
    DocLoad,
    /// The armed quiet timer reached its deadline undisturbed.
    TimerFire,
}

/// An observation stamped with the absolute instant, in milliseconds, at
/// which it was made. Instants are expected in nondecreasing order.
#[derive(Debug, Clone, Copy, PartialEq, Eq)]
pub struct TimedIdleEvent {
    /// What was observed.
    pub event: IdleEvent,
    /// When it was observed.
    pub at: u64,
}

/// The idle-detection state machine: it watches the page's two network
/// primitives and its readiness, and resolves exactly once, after a full
/// debounce interval of quiet.
#[derive(Debug, Clone, Copy, PartialEq, Eq)]
pub struct IdleMachine {
    /// Tracked requests currently in flight.
    pub active: u32,
    /// The armed quiet timer, if any.
    pub timer: Option<PendingTimer>,
    /// The resolved idle signal; `None` while the page is still waiting.
    pub settled: Option<Resolution>,
    /// Instant of the most recent tracked network event (start or
    /// completion); the instant observation began if there was none yet.
    pub last_activity: u64,
}

/// The machine as observation begins: no request in flight, and the initial
/// quiet timer armed at once if the document is already complete. Otherwise
/// the machine waits for the document's load event.
pub open spec fn idle_init(doc_complete: bool, now: u64) -> IdleMachine {
    IdleMachine {
        active: 0,
        timer: if doc_complete {
            Some(PendingTimer { deadline: (now + DEBOUNCE_MS) as u64, label: IdleLabel::Initial })
        } else {
            None
        },
        settled: None,
        last_activity: now,
    }
}

/// A request completed at instant `at`: the counter comes down, and if it
/// reached zero the quiet timer is re-armed one debounce interval ahead,
/// carrying the completing request's label.
pub open spec fn idle_end(m: IdleMachine, at: u64, label: IdleLabel) -> IdleMachine {
    let active = if m.active == 0 { 0u32 } else { (m.active - 1) as u32 };
    IdleMachine {
        active,
        timer: if active == 0 {
            Some(PendingTimer { deadline: (at + DEBOUNCE_MS) as u64, label })
        } else {
            m.timer
        },
        settled: m.settled,
        last_activity: at,
    }
}

/// One step of the idle-detection protocol. After resolution every event is
/// a no-op: a resolved signal cannot resolve again. Before resolution:
/// a request start cancels any pending quiet timer; a request completion
/// re-arms it once the counter is quiet; the document's load event arms it
/// independently of the counter, as a fallback; and an undisturbed timer
/// reaching its deadline resolves the signal with the armed label.
pub open spec fn idle_step(m: IdleMachine, ev: TimedIdleEvent) -> IdleMachine {
    if m.settled is Some {
        m
    } else {
        match ev.event {
            IdleEvent::RequestStart => IdleMachine {
                active: if m.active == u32::MAX { m.active } else { (m.active + 1) as u32 },
                timer: None,
                settled: m.settled,
                last_activity: ev.at,
            },
            IdleEvent::XhrEnd => idle_end(m, ev.at, IdleLabel::Xhr),
            IdleEvent::FetchEnd => idle_end(m, ev.at, IdleLabel::Fetch),
            IdleEvent::DocLoad => IdleMachine {
                active: m.active,
                timer: Some(
                    PendingTimer { deadline: (ev.at + DEBOUNCE_MS) as u64, label: IdleLabel::Load },
                ),
                settled: m.settled,
                last_activity: m.last_activity,
            },
            IdleEvent::TimerFire => match m.timer {
                Some(t) => if t.deadline == ev.at {
                    IdleMachine {
                        active: m.active,
                        timer: None,
                        settled: Some(Resolution { label: t.label, at: ev.at }),
                        last_activity: m.last_activity,
                    }
                } else {
                    m
                },
                None => m,
            },
        }
    }
}

/// The machine after a whole sequence of observations, earliest first.
pub open spec fn idle_run(m: IdleMachine, evs: Seq<TimedIdleEvent>) -> IdleMachine
    decreases evs.len(),
{
    if evs.len() == 0 {
        m
    } else {
        idle_run(idle_step(m, evs[0]), evs.drop_first())
    }
}

impl IdleMachine {
    /// Begin observing a page: the initial quiet timer is armed at once when
    /// the document is already complete, else the machine waits for the
    /// document's load event.
    pub fn new(doc_complete: bool, now: u64) -> (r: IdleMachine)
        requires
            now + DEBOUNCE_MS <= u64::MAX,
        ensures
            r == idle_init(doc_complete, now),
    {
        IdleMachine {
            active: 0,
            timer: if doc_complete {
                Some(PendingTimer { deadline: now + DEBOUNCE_MS, label: IdleLabel::Initial })
            } else {
                None
            },
            settled: None,
            last_activity: now,
        }
    }

    /// Advance by one observed event.
    pub fn step(&mut self, ev: TimedIdleEvent)
        requires
            ev.at + DEBOUNCE_MS <= u64::MAX,
        ensures
            *final(self) == idle_step(*old(self), ev),
    {
        if self.settled.is_some() {
            return ;
        }
        match ev.event {
            IdleEvent::RequestStart => {
                if self.active < u32::MAX {
                    self.active = self.active + 1;
                }
                self.timer = None;
                self.last_activity = ev.at;
            },
            IdleEvent::XhrEnd => {
                self.finish_request(ev.at, IdleLabel::Xhr);
            },
            IdleEvent::FetchEnd => {
                self.finish_request(ev.at, IdleLabel::Fetch);
            },
            IdleEvent::DocLoad => {
                self.timer = Some(
                    PendingTimer { deadline: ev.at + DEBOUNCE_MS, label: IdleLabel::Load },
                );
            },
            IdleEvent::TimerFire => {
                if let Some(t) = self.timer {
                    if t.deadline == ev.at {
                        self.timer = None;
                        self.settled = Some(Resolution { label: t.label, at: ev.at });
                    }
                }
            },
        }
    }

    /// A request completed: bring the counter down and, once it is quiet,
    /// re-arm the quiet timer with the completing request's label.
    fn finish_request(&mut self, at: u64, label: IdleLabel)
        requires
            old(self).settled is None,
            at + DEBOUNCE_MS <= u64::MAX,
        ensures
            *final(self) == idle_end(*old(self), at, label),
    {
        if self.active > 0 {
            self.active = self.active - 1;
        }
        if self.active == 0 {
            self.timer = Some(PendingTimer { deadline: at + DEBOUNCE_MS, label });
        }
        self.last_activity = at;
    }
}

/// The debounce discipline: a network-labelled quiet timer or resolution
/// exists only while no tracked request is in flight, and never lies earlier
/// than one full debounce interval after the last tracked network activity.
pub open spec fn idle_inv(m: IdleMachine) -> bool {
    &&& (m.timer matches Some(t) ==> (network_label(t.label) ==> m.active == 0
        && t.deadline >= m.last_activity + DEBOUNCE_MS))
    &&& (m.settled matches Some(r) ==> (network_label(r.label) ==> m.active == 0
        && r.at >= m.last_activity + DEBOUNCE_MS))
}

/// The debounce discipline holds as observation begins.
pub proof fn lemma_idle_inv_init(doc_complete: bool, now: u64)
    requires
        now + DEBOUNCE_MS <= u64::MAX,
    ensures
        idle_inv(idle_init(doc_complete, now)),
{
}

/// The debounce discipline is preserved by every observed event.
pub proof fn lemma_idle_inv_step(m: IdleMachine, ev: TimedIdleEvent)
    requires
        idle_inv(m),
        ev.at + DEBOUNCE_MS <= u64::MAX,
    ensures
        idle_inv(idle_step(m, ev)),
{
}

/// The debounce discipline holds along any run of observations.
pub proof fn lemma_idle_inv_run(m: IdleMachine, evs: Seq<TimedIdleEvent>)
    requires
        idle_inv(m),
        forall|i: int| 0 <= i < evs.len() ==> #[trigger] evs[i].at + DEBOUNCE_MS <= u64::MAX,
    ensures
        idle_inv(idle_run(m, evs)),
    decreases evs.len(),
{
    if evs.len() > 0 {
        lemma_idle_inv_step(m, evs[0]);
        lemma_idle_inv_run(idle_step(m, evs[0]), evs.drop_first());
    }
}

/// Debounce correctness: a network-labelled resolution comes only once every
/// tracked request has completed, and no earlier than one full debounce
/// interval after the last tracked network activity — never before the final
/// request's completion plus the debounce interval.
pub proof fn lemma_debounce_never_early(m: IdleMachine)
    requires
        idle_inv(m),
        m.settled matches Some(r) && network_label(r.label),
    ensures
        m.active == 0,
        m.settled->Some_0.at >= m.last_activity + DEBOUNCE_MS,
{
}

/// Single resolution: once the signal has resolved, any further observations
/// leave the machine — label and instant included — entirely unchanged.
pub proof fn lemma_idle_single_resolution(m: IdleMachine, evs: Seq<TimedIdleEvent>)
    requires
        m.settled is Some,
    ensures
        idle_run(m, evs) == m,
    decreases evs.len(),
{
    if evs.len() > 0 {
        lemma_idle_single_resolution(m, evs.drop_first());
    }
}

/// A resolution is produced only by the armed quiet timer reaching its
/// deadline undisturbed, and it carries exactly the armed label and the
/// deadline instant; nothing else changes the resolved signal.
pub proof fn lemma_idle_resolution_step(m: IdleMachine, ev: TimedIdleEvent)
    ensures
        m.settled is Some ==> idle_step(m, ev).settled == m.settled,
        idle_step(m, ev).settled != m.settled ==> {
            &&& m.settled is None
            &&& ev.event is TimerFire
            &&& m.timer matches Some(t) && t.deadline == ev.at
            &&& idle_step(m, ev).settled == Some(
                Resolution { label: m.timer->Some_0.label, at: ev.at },
            )
        },
{
}

/// Only the document paths can resolve a page that performs no tracked
/// network activity: every label in sight is `Initial` or `Load`.
pub open spec fn non_network_labels(m: IdleMachine) -> bool {
    &&& (m.timer matches Some(t) ==> !network_label(t.label))
    &&& (m.settled matches Some(r) ==> !network_label(r.label))
}

/// Determinism of idle resolution for a static page: observing only document
/// readiness and timer expiry — no network activity at all — the signal can
/// only resolve with label `Initial` or `Load`, never `Xhr` or `Fetch`.
pub proof fn lemma_idle_static_page(doc_complete: bool, t0: u64, evs: Seq<TimedIdleEvent>)
    requires
        forall|i: int| 0 <= i < evs.len()
            ==> (#[trigger] evs[i].event) is DocLoad || evs[i].event is TimerFire,
    ensures
        non_network_labels(idle_run(idle_init(doc_complete, t0), evs)),
{
    lemma_idle_static_page_run(idle_init(doc_complete, t0), evs);
}

proof fn lemma_idle_static_page_run(m: IdleMachine, evs: Seq<TimedIdleEvent>)
    requires
        non_network_labels(m),
        forall|i: int| 0 <= i < evs.len()
            ==> (#[trigger] evs[i].event) is DocLoad || evs[i].event is TimerFire,
    ensures
        non_network_labels(idle_run(m, evs)),
    decreases evs.len(),
{
    if evs.len() > 0 {
        assert(forall|i: int| 0 <= i < evs.drop_first().len()
            ==> (#[trigger] evs.drop_first()[i].event) is DocLoad || evs.drop_first()[i].event
            is TimerFire);
        lemma_idle_static_page_run(idle_step(m, evs[0]), evs.drop_first());
    }
}

} // verus!
