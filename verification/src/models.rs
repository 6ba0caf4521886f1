//! Core data shapes: the per-user request state, the synthesis result, and
//! the error taxonomy of the pipeline.

use vstd::prelude::*;

verus! {

/// One user's in-progress request: which platform they picked and, once they
/// have sent one, their free-text theme description.
///
/// Invariant of the conversation flow (maintained by the state tracker, not by
/// this struct): `theme_description` is set only while `platform` is set.
#[derive(Clone)]
pub struct UserState {
    pub platform: Option<String>,
    pub theme_description: Option<String>,
}

/// Ghost image of a [`UserState`]: both fields as mathematical strings.
pub struct UserStateView {
    pub platform: Option<Seq<char>>,
    pub theme_description: Option<Seq<char>>,
}

impl View for UserState {
    type V = UserStateView;

    open spec fn view(&self) -> UserStateView {
        UserStateView {
            platform: match self.platform {
                Some(p) => Some(p@),
                None => None,
            },
            theme_description: match self.theme_description {
                Some(d) => Some(d@),
                None => None,
            },
        }
    }
}

impl Default for UserState {
    /// An idle request context: no platform selected, no description.
    fn default() -> (d: Self)
        ensures
            d@.platform is None,
            d@.theme_description is None,
    {
        UserState { platform: None, theme_description: None }
    }
}

/// The result of one successful synthesis call: the accumulated streamed text
/// and an echo of the description that produced it.
pub struct SynthesizerOutput {
    pub theme: String,
    pub description: String,
}

/// Everything that can go wrong in one synthesis call.
#[derive(Debug)]
pub enum SynthesisError {
    /// The bearer credential was absent when the completion client was built.
    MissingCredential,
    /// No template exists for the selected platform.
    TemplateNotFound,
    /// The completion endpoint answered with a non-success status; carries the
    /// status code and the full error body.
    RequestFailed(u16, String),
    /// The transport failed mid-stream; carries a description of the failure.
    TransportError(String),
    /// A non-terminal event frame held malformed chunk JSON.
    ParseError,
    /// The stream stalled before any content arrived.
    StreamTimedOut,
}

} // verus!
