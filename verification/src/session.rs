use vstd::prelude::*;
use crate::config::SessionConfig;
use crate::error::BrowseError;

verus! {

/// What one browsing call ends with: the rendered HTML or the first phase
/// failure, plus the outcome of teardown. A close failure never masks an
/// already-obtained result — success or error — and is recorded beside it.
#[derive(Debug, PartialEq, Eq)]
pub struct BrowseOutcome {
    /// The rendered document, or the failure that aborted the lifecycle.
    pub result: Result<String, BrowseError>,
    /// The cause text of a failed teardown, if closing the session failed.
    pub close_failure: Option<String>,
}

/// Where one browsing call stands in its lifecycle. The session protocol is
/// linear: launch, navigate, optional stealth, idle detection, content
/// retrieval, teardown. A failure in any phase aborts the remaining phases
/// but still goes through teardown whenever a live session exists.
#[derive(Debug, PartialEq, Eq)]
pub enum SessionState {
    /// Nothing has happened yet; the browser is to be launched.
    Start,
    /// The browser process is up and its event stream is being drained; the
    /// page is to be opened.
    Launched,
    /// The page exists and navigation succeeded; stealth countermeasures are
    /// to be applied if configured, else idle detection begins.
    PageOpen,
    /// Stealth countermeasures are in place; idle detection begins.
    StealthApplied,
    /// The idle signal resolved, carrying the raw signal text the in-page
    /// script reported; the rendered document is to be read.
    Settled { signal: String },
    /// The rendered document is in hand; the session is to be closed.
    ContentRead { html: String },
    /// A phase failed while the session was live; the session is to be
    /// closed before the failure is reported.
    Cleanup { error: BrowseError },
    /// The call is over; nothing remains to be done.
    Finished { outcome: BrowseOutcome },
}

/// What the browser driver reports back after performing an action. Each
/// failure carries the underlying cause text.
#[derive(Debug, Clone, PartialEq, Eq)]
pub enum SessionEvent {
    /// The browser process started and its control channel is up.
    LaunchOk,
    /// The browser could not start or its control channel failed.
    LaunchFailed { message: String },
    /// The page was created and navigation to the target URL succeeded.
    OpenOk,
    /// The URL could not be loaded into a new page.
    OpenFailed { message: String },
    /// Stealth countermeasures were applied.
    StealthOk,
    /// Stealth countermeasures failed to apply.
    StealthFailed { message: String },
    /// The idle-detection script resolved; `signal` is its resolution text.
    EvalOk { signal: String },
    /// The idle-detection script failed to execute or threw in the page.
    EvalFailed { message: String },
    /// The rendered document was serialized.
    ContentOk { html: String },
    /// The rendered document could not be serialized.
    ContentFailed { message: String },
    /// The session closed cleanly.
    CloseOk,
    /// Teardown failed.
    CloseFailed { message: String },
}

/// The next browser operation the driver must perform. The driver performs
/// it, observes the outcome, and feeds the matching event back.
#[derive(Debug, Clone, PartialEq, Eq)]
pub enum Action {
    /// Launch an isolated browser process. `port` is always zero: the
    /// control channel binds to an ephemeral, auto-assigned port so that
    /// concurrent unrelated calls on the same host never collide. The
    /// driver must also start draining the session's event stream for the
    /// whole lifetime of the session.
    Launch { headless: bool, port: u16 },
    /// Open one page by navigating to the target URL.
    OpenPage { url: String },
    /// Apply anti-detection countermeasures, before idle detection runs.
    EnableStealth,
    /// Evaluate the idle-detection script in the page and await its
    /// resolution.
    EvaluateIdleScript,
    /// Serialize the page's live DOM, only after the idle signal resolved.
    ReadContent,
    /// Tear the session down.
    Close,
    /// Nothing: the call is over.
    Finish,
}

/// The browser operation owed in each lifecycle state.
pub open spec fn next_action_spec(c: SessionConfig, s: SessionState) -> Action {
    match s {
        SessionState::Start => Action::Launch { headless: c.headless, port: 0 },
        SessionState::Launched => Action::OpenPage { url: c.url },
        SessionState::PageOpen => if c.stealth {
            Action::EnableStealth
        } else {
            Action::EvaluateIdleScript
        },
        SessionState::StealthApplied => Action::EvaluateIdleScript,
        SessionState::Settled { .. } => Action::ReadContent,
        SessionState::ContentRead { .. } => Action::Close,
        SessionState::Cleanup { .. } => Action::Close,
        SessionState::Finished { .. } => Action::Finish,
    }
}

/// How one reported event advances the lifecycle. An event that does not
/// answer the pending action leaves the state unchanged, and the terminal
/// state absorbs everything. A failure before launch finishes at once (there
/// is no session to tear down); a failure with a live session goes to
/// cleanup, keeping the first failure; the close outcome never masks an
/// already-obtained result.
pub open spec fn apply_event_spec(s: SessionState, ev: SessionEvent) -> SessionState {
    match s {
        SessionState::Start => match ev {
            SessionEvent::LaunchOk => SessionState::Launched,
            SessionEvent::LaunchFailed { message } => SessionState::Finished {
                outcome: BrowseOutcome {
                    result: Err(BrowseError::Launch { message }),
                    close_failure: None,
                },
            },
            _ => s,
        },
        SessionState::Launched => match ev {
            SessionEvent::OpenOk => SessionState::PageOpen,
            SessionEvent::OpenFailed { message } => SessionState::Cleanup {
                error: BrowseError::Navigation { message },
            },
            _ => s,
        },
        SessionState::PageOpen => match ev {
            SessionEvent::StealthOk => SessionState::StealthApplied,
            SessionEvent::StealthFailed { message } => SessionState::Cleanup {
                error: BrowseError::Stealth { message },
            },
            SessionEvent::EvalOk { signal } => SessionState::Settled { signal },
            SessionEvent::EvalFailed { message } => SessionState::Cleanup {
                error: BrowseError::Evaluation { message },
            },
            _ => s,
        },
        SessionState::StealthApplied => match ev {
            SessionEvent::EvalOk { signal } => SessionState::Settled { signal },
            SessionEvent::EvalFailed { message } => SessionState::Cleanup {
                error: BrowseError::Evaluation { message },
            },
            _ => s,
        },
        SessionState::Settled { .. } => match ev {
            SessionEvent::ContentOk { html } => SessionState::ContentRead { html },
            SessionEvent::ContentFailed { message } => SessionState::Cleanup {
                error: BrowseError::Content { message },
            },
            _ => s,
        },
        SessionState::ContentRead { html } => match ev {
            SessionEvent::CloseOk => SessionState::Finished {
                outcome: BrowseOutcome { result: Ok(html), close_failure: None },
            },
            SessionEvent::CloseFailed { message } => SessionState::Finished {
                outcome: BrowseOutcome { result: Ok(html), close_failure: Some(message) },
            },
            _ => s,
        },
        SessionState::Cleanup { error } => match ev {
            SessionEvent::CloseOk => SessionState::Finished {
                outcome: BrowseOutcome { result: Err(error), close_failure: None },
            },
            SessionEvent::CloseFailed { message } => SessionState::Finished {
                outcome: BrowseOutcome { result: Err(error), close_failure: Some(message) },
            },
            _ => s,
        },
        SessionState::Finished { .. } => s,
    }
}

/// The lifecycle after a whole sequence of reported events, earliest first.
pub open spec fn session_run(s: SessionState, evs: Seq<SessionEvent>) -> SessionState
    decreases evs.len(),
{
    if evs.len() == 0 {
        s
    } else {
        session_run(apply_event_spec(s, evs[0]), evs.drop_first())
    }
}

/// The browser operation owed in the current lifecycle state.
pub fn next_action(config: &SessionConfig, state: &SessionState) -> (a: Action)
    ensures
        a == next_action_spec(*config, *state),
{
    match state {
        SessionState::Start => Action::Launch { headless: config.headless, port: 0 },
        SessionState::Launched => Action::OpenPage { url: config.url.clone() },
        SessionState::PageOpen => if config.stealth {
            Action::EnableStealth
        } else {
            Action::EvaluateIdleScript
        },
        SessionState::StealthApplied => Action::EvaluateIdleScript,
        SessionState::Settled { .. } => Action::ReadContent,
        SessionState::ContentRead { .. } => Action::Close,
        SessionState::Cleanup { .. } => Action::Close,
        SessionState::Finished { .. } => Action::Finish,
    }
}

/// Advance the lifecycle by one reported event.
pub fn apply_event(state: SessionState, event: SessionEvent) -> (r: SessionState)
    ensures
        r == apply_event_spec(state, event),
{
    match state {
        SessionState::Start => match event {
            SessionEvent::LaunchOk => SessionState::Launched,
            SessionEvent::LaunchFailed { message } => SessionState::Finished {
                outcome: BrowseOutcome {
                    result: Err(BrowseError::Launch { message }),
                    close_failure: None,
                },
            },
            _ => SessionState::Start,
        },
        SessionState::Launched => match event {
            SessionEvent::OpenOk => SessionState::PageOpen,
            SessionEvent::OpenFailed { message } => SessionState::Cleanup {
                error: BrowseError::Navigation { message },
            },
            _ => SessionState::Launched,
        },
        SessionState::PageOpen => match event {
            SessionEvent::StealthOk => SessionState::StealthApplied,
            SessionEvent::StealthFailed { message } => SessionState::Cleanup {
                error: BrowseError::Stealth { message },
            },
            SessionEvent::EvalOk { signal } => SessionState::Settled { signal },
            SessionEvent::EvalFailed { message } => SessionState::Cleanup {
                error: BrowseError::Evaluation { message },
            },
            _ => SessionState::PageOpen,
        },
        SessionState::StealthApplied => match event {
            SessionEvent::EvalOk { signal } => SessionState::Settled { signal },
            SessionEvent::EvalFailed { message } => SessionState::Cleanup {
                error: BrowseError::Evaluation { message },
            },
            _ => SessionState::StealthApplied,
        },
        SessionState::Settled { signal } => match event {
            SessionEvent::ContentOk { html } => SessionState::ContentRead { html },
            SessionEvent::ContentFailed { message } => SessionState::Cleanup {
                error: BrowseError::Content { message },
            },
            _ => SessionState::Settled { signal },
        },
        SessionState::ContentRead { html } => match event {
            SessionEvent::CloseOk => SessionState::Finished {
                outcome: BrowseOutcome { result: Ok(html), close_failure: None },
            },
            SessionEvent::CloseFailed { message } => SessionState::Finished {
                outcome: BrowseOutcome { result: Ok(html), close_failure: Some(message) },
            },
            _ => SessionState::ContentRead { html },
        },
        SessionState::Cleanup { error } => match event {
            SessionEvent::CloseOk => SessionState::Finished {
                outcome: BrowseOutcome { result: Err(error), close_failure: None },
            },
            SessionEvent::CloseFailed { message } => SessionState::Finished {
                outcome: BrowseOutcome { result: Err(error), close_failure: Some(message) },
            },
            _ => SessionState::Cleanup { error },
        },
        SessionState::Finished { outcome } => SessionState::Finished { outcome },
    }
}

/// True of the states in which a browser process is alive and owed teardown.
pub open spec fn session_live(s: SessionState) -> bool {
    match s {
        SessionState::Start => false,
        SessionState::Finished { .. } => false,
        _ => true,
    }
}

/// True of an event that reports the outcome of teardown.
pub open spec fn close_answer(ev: SessionEvent) -> bool {
    ev is CloseOk || ev is CloseFailed
}

/// Cleanup on every path: a single step reaches the terminal state only from
/// a state whose pending action is `Close`, answered by a close outcome — or
/// from the very start, when the launch itself failed and no session ever
/// existed. No live session is abandoned.
pub proof fn lemma_finish_only_after_close(c: SessionConfig, s: SessionState, ev: SessionEvent)
    requires
        !(s is Finished),
        apply_event_spec(s, ev) is Finished,
    ensures
        (s is Start && ev is LaunchFailed) || (next_action_spec(c, s) is Close && close_answer(ev)),
{
}

/// Cleanup on every path, along a whole run: if a call that had a live
/// session ever finishes, some event in between reported the outcome of a
/// `Close` — the session was torn down, never orphaned.
pub proof fn lemma_run_closes_live_session(s: SessionState, evs: Seq<SessionEvent>)
    requires
        session_live(s),
        session_run(s, evs) is Finished,
    ensures
        exists|i: int| 0 <= i < evs.len() && close_answer(#[trigger] evs[i]),
    decreases evs.len(),
{
    if evs.len() > 0 {
        let s1 = apply_event_spec(s, evs[0]);
        if close_answer(evs[0]) {
            assert(0 <= 0 < evs.len() && close_answer(evs[0]));
        } else {
            assert(session_live(s1));
            lemma_run_closes_live_session(s1, evs.drop_first());
            let j = choose|j: int|
                0 <= j < evs.drop_first().len() && close_answer(#[trigger] evs.drop_first()[j]);
            assert(evs.drop_first()[j] == evs[j + 1]);
            assert(close_answer(evs[j + 1]));
        }
    }
}

/// Phase ordering: idle detection is owed only once navigation — and, when
/// requested, stealth — has completed, and content retrieval is owed only
/// once the idle signal has resolved.
pub proof fn lemma_phase_ordering(c: SessionConfig, s: SessionState)
    ensures
        next_action_spec(c, s) is EvaluateIdleScript ==> (s is PageOpen && !c.stealth) || s
            is StealthApplied,
        next_action_spec(c, s) is ReadContent ==> s is Settled,
        next_action_spec(c, s) is EnableStealth ==> s is PageOpen && c.stealth,
{
}

/// The terminal state is absorbing: once finished, the outcome — result and
/// recorded close failure alike — never changes again.
pub proof fn lemma_finished_is_final(s: SessionState, evs: Seq<SessionEvent>)
    requires
        s is Finished,
    ensures
        session_run(s, evs) == s,
    decreases evs.len(),
{
    if evs.len() > 0 {
        lemma_finished_is_final(s, evs.drop_first());
    }
}

/// Success is never fabricated: a call that finishes with rendered HTML got
/// exactly that text from a content-retrieval event — no partial or invented
/// document is ever returned.
pub proof fn lemma_success_html_comes_from_content(
    s: SessionState,
    evs: Seq<SessionEvent>,
    html: String,
)
    requires
        session_run(s, evs) matches SessionState::Finished { outcome } && outcome.result == Ok::<
            String,
            BrowseError,
        >(html),
    ensures
        (exists|i: int|
            0 <= i < evs.len() && #[trigger] evs[i] == (SessionEvent::ContentOk { html })) || s == (
        SessionState::ContentRead { html }) || (s matches SessionState::Finished { outcome }
            && outcome.result == Ok::<String, BrowseError>(html)),
    decreases evs.len(),
{
    if evs.len() > 0 {
        let s1 = apply_event_spec(s, evs[0]);
        lemma_success_html_comes_from_content(s1, evs.drop_first(), html);
        if exists|j: int|
            0 <= j < evs.drop_first().len() && #[trigger] evs.drop_first()[j] == (
            SessionEvent::ContentOk { html }) {
            let j = choose|j: int|
                0 <= j < evs.drop_first().len() && #[trigger] evs.drop_first()[j] == (
                SessionEvent::ContentOk { html });
            assert(evs[j + 1] == (SessionEvent::ContentOk { html }));
        } else if s1 == (SessionState::ContentRead { html }) {
            if s != (SessionState::ContentRead { html }) {
                assert(evs[0] == (SessionEvent::ContentOk { html }));
            }
        }
    }
}

/// True when `ev` is the failure report that the error wraps: same phase,
/// same cause text.
pub open spec fn error_event(e: BrowseError, ev: SessionEvent) -> bool {
    match e {
        BrowseError::Launch { message } => ev == (SessionEvent::LaunchFailed { message }),
        BrowseError::Navigation { message } => ev == (SessionEvent::OpenFailed { message }),
        BrowseError::Stealth { message } => ev == (SessionEvent::StealthFailed { message }),
        BrowseError::Evaluation { message } => ev == (SessionEvent::EvalFailed { message }),
        BrowseError::Content { message } => ev == (SessionEvent::ContentFailed { message }),
    }
}

/// Errors are never fabricated either: a call that finishes with a failure
/// wraps exactly one phase's reported failure — the phase names the error
/// variant and the cause text is carried through unchanged.
pub proof fn lemma_error_comes_from_failed_phase(
    s: SessionState,
    evs: Seq<SessionEvent>,
    e: BrowseError,
)
    requires
        session_run(s, evs) matches SessionState::Finished { outcome } && outcome.result == Err::<
            String,
            BrowseError,
        >(e),
    ensures
        (exists|i: int| 0 <= i < evs.len() && error_event(e, #[trigger] evs[i])) || s == (
        SessionState::Cleanup { error: e }) || (s matches SessionState::Finished { outcome }
            && outcome.result == Err::<String, BrowseError>(e)),
    decreases evs.len(),
{
    if evs.len() > 0 {
        let s1 = apply_event_spec(s, evs[0]);
        lemma_error_comes_from_failed_phase(s1, evs.drop_first(), e);
        if exists|j: int| 0 <= j < evs.drop_first().len() && error_event(e, #[trigger] evs.drop_first()[j]) {
            let j = choose|j: int|
                0 <= j < evs.drop_first().len() && error_event(e, #[trigger] evs.drop_first()[j]);
            assert(error_event(e, evs[j + 1]));
        } else if s1 == (SessionState::Cleanup { error: e }) {
            if s != (SessionState::Cleanup { error: e }) {
                assert(error_event(e, evs[0]));
            }
        } else if s1 matches SessionState::Finished { outcome } && outcome.result == Err::<
            String,
            BrowseError,
        >(e) {
            if !(s matches SessionState::Finished { outcome } && outcome.result == Err::<
                String,
                BrowseError,
            >(e)) {
                if s == (SessionState::Cleanup { error: e }) {
                } else {
                    assert(error_event(e, evs[0]));
                }
            }
        }
    }
}

/// The same, for a whole call: a call driven from the very start that ends
/// with a failure wraps a failure report that some phase actually made.
pub proof fn lemma_full_call_error_provenance(evs: Seq<SessionEvent>, e: BrowseError)
    requires
        session_run(SessionState::Start, evs) matches SessionState::Finished { outcome }
            && outcome.result == Err::<String, BrowseError>(e),
    ensures
        exists|i: int| 0 <= i < evs.len() && error_event(e, #[trigger] evs[i]),
{
    lemma_error_comes_from_failed_phase(SessionState::Start, evs, e);
}

/// The same, for a whole call: a call driven from the very start that ends
/// with rendered HTML got that text from a content-retrieval event.
pub proof fn lemma_full_call_html_provenance(evs: Seq<SessionEvent>, html: String)
    requires
        session_run(SessionState::Start, evs) matches SessionState::Finished { outcome }
            && outcome.result == Ok::<String, BrowseError>(html),
    ensures
        exists|i: int|
            0 <= i < evs.len() && #[trigger] evs[i] == (SessionEvent::ContentOk { html }),
{
    lemma_success_html_comes_from_content(SessionState::Start, evs, html);
}

/// The teardown outcome never masks a result already in hand: after the
/// content was read, either close outcome still reports success with exactly
/// that content, and after a phase failure, either close outcome still
/// reports exactly that first failure; a failed close is only recorded
/// beside the result.
pub proof fn lemma_close_never_masks_result(s: SessionState, ev: SessionEvent)
    requires
        close_answer(ev),
    ensures
        s matches SessionState::ContentRead { html } ==> apply_event_spec(s, ev)
            matches SessionState::Finished { outcome } && outcome.result == Ok::<
            String,
            BrowseError,
        >(html),
        s matches SessionState::Cleanup { error } ==> apply_event_spec(s, ev)
            matches SessionState::Finished { outcome } && outcome.result == Err::<
            String,
            BrowseError,
        >(error),
        ev matches SessionEvent::CloseFailed { message } ==> ((s is ContentRead || s is Cleanup)
            ==> (apply_event_spec(s, ev) matches SessionState::Finished { outcome }
            && outcome.close_failure == Some(message))),
{
}

} // verus!
