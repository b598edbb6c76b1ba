//! Fetching the fully rendered HTML of a web page by driving a real browser.
//!
//! The verified core is the decision logic of one browsing call: the session
//! lifecycle protocol (launch, navigate, optional stealth, idle detection,
//! content retrieval, teardown) as a state machine, and the debounced
//! network-quiescence heuristic that judges when a page has settled. The
//! asynchronous browser driver that performs each action lives outside this
//! library and feeds the observed outcomes back as events.

pub mod config;
pub mod error;
pub mod idle;
pub mod script;
pub mod session;
