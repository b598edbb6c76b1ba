use vstd::prelude::*;

verus! {

/// A failure in one phase of the browsing lifecycle. Each variant carries the
/// cause text reported by the browser layer; the phase is the variant itself.
///
/// Teardown failures are deliberately absent: closing the session never
/// produces the overall error. A close failure is recorded beside the result
/// instead (see the session module), so it can be surfaced without masking an
/// already-obtained result.
#[derive(Debug, Clone, PartialEq, Eq)]
pub enum BrowseError {
    /// The browser process could not start or its control channel could not
    /// be established.
    Launch { message: String },
    /// The requested URL could not be loaded into the new page.
    Navigation { message: String },
    /// Anti-detection countermeasures failed to apply.
    Stealth { message: String },
    /// The idle-detection script failed to execute inside the page.
    Evaluation { message: String },
    /// The rendered document could not be serialized.
    Content { message: String },
}

impl BrowseError {
    /// The cause text the error carries, whatever its phase.
    pub open spec fn message_spec(&self) -> Seq<char> {
        match self {
            BrowseError::Launch { message } => message@,
            BrowseError::Navigation { message } => message@,
            BrowseError::Stealth { message } => message@,
            BrowseError::Evaluation { message } => message@,
            BrowseError::Content { message } => message@,
        }
    }

    /// The cause text, for building the caller-facing report.
    pub fn message(&self) -> (r: &String)
        ensures
            r@ == self.message_spec(),
    {
        match self {
            BrowseError::Launch { message } => message,
            BrowseError::Navigation { message } => message,
            BrowseError::Stealth { message } => message,
            BrowseError::Evaluation { message } => message,
            BrowseError::Content { message } => message,
        }
    }
}

/// The fixed contextual label attached to every caller-facing failure.
pub fn error_label() -> (r: &'static str)
    ensures
        r@ == "browse failed"@,
{
    "browse failed"
}

} // verus!
