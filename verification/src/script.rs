use vstd::prelude::*;

verus! {

/// The idle-detection payload, evaluated inside the target page. It is an
/// opaque script: the page's own scripting environment runs it, and only its
/// single resolution value comes back. It implements the debounced
/// quiescence protocol that the idle module models: every XHR- or
/// fetch-style request raises a counter on start and lowers it on completion
/// (success and failure alike); any activity cancels the pending quiet
/// timer; whenever the counter reaches zero a quiet timer of one debounce
/// interval is armed; a document that is already complete with nothing in
/// flight arms it at once, and otherwise the document's load event arms it
/// as a fallback; the promise resolves exactly once, with a label naming the
/// trigger (`initial`, `load`, `xhr`, `fetch`) followed by `-network-idle`.
pub const IDLE_SCRIPT: &'static str = r#"() =>
  new Promise((resolve) => {
    let activeRequests = 0;
    let idleTimer;

    const done = (label) => {
      clearTimeout(idleTimer);
      idleTimer = setTimeout(() => resolve(`${label}-network-idle`), 500);
    };

    const origOpen = XMLHttpRequest.prototype.open;
    XMLHttpRequest.prototype.open = function (...args) {
      this.addEventListener('loadstart', () => {
        activeRequests++;
        clearTimeout(idleTimer);
      });
      this.addEventListener('loadend', () => {
        activeRequests--;
        if (activeRequests <= 0) done('xhr');
      });
      origOpen.apply(this, args);
    };

    const origFetch = window.fetch;
    window.fetch = async function (...args) {
      activeRequests++;
      clearTimeout(idleTimer);
      try {
        const response = await origFetch.apply(this, args);
        return response;
      } finally {
        activeRequests--;
        if (activeRequests <= 0) done('fetch');
      }
    };

    const maybeResolveImmediately = () => {
      if (document.readyState === 'complete' && activeRequests === 0) {
        done('initial');
      } else {
        window.addEventListener('load', () => done('load'), { once: true });
      }
    };

    maybeResolveImmediately();
  })"#;

/// The in-page payload the `EvaluateIdleScript` action evaluates.
pub fn idle_script() -> (r: &'static str)
    ensures
        r == IDLE_SCRIPT,
{
    IDLE_SCRIPT
}

} // verus!
