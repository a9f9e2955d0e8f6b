//! The generation state shared by every command: whether a generation runs,
//! which session is selected, and the handle by which a running generation is
//! cancelled.

use tokio_util::sync::CancellationToken;
use vstd::prelude::*;

verus! {

#[verifier::external_type_specification]
#[verifier::external_body]
pub struct ExCancellationToken(CancellationToken);

/// `tokio_util::sync::CancellationToken::new`: a fresh token. Whether a token is
/// cancelled is shared between its clones and changes under them, so nothing is
/// claimed of it.
pub assume_specification[ CancellationToken::new ]() -> CancellationToken
;

/// `tokio_util::sync::CancellationToken::cancel`: signals the token and its
/// clones. The token is reached through a shared reference; nothing is claimed.
pub assume_specification[ CancellationToken::cancel ](token: &CancellationToken)
;

/// `Clone` for `tokio_util::sync::CancellationToken`: a second handle on the same
/// token, which the crate's own `==` tells from no other clone of it. The
/// clone is claimed to be that token; of whether it is cancelled, nothing.
pub assume_specification[ <CancellationToken as Clone>::clone ](
    token: &CancellationToken,
) -> (copy: CancellationToken)
    ensures
        copy == *token,
;

/// The identifier stored when no session is selected.
pub const NO_SESSION: i64 = -1;

/// The session that `current` selects: none when it is absent or the sentinel.
pub open spec fn selected(current: Option<i64>) -> Option<i64> {
    match current {
        Some(id) if id != NO_SESSION => Some(id),
        _ => None,
    }
}

/// A [`GenerationState`] as a value: what its three fields hold.
pub struct GenerationStateView {
    pub is_running: bool,
    pub current_session_id: Option<i64>,
    pub cancellation_token: Option<CancellationToken>,
}

impl GenerationStateView {
    /// No generation runs and no cancellation handle is installed.
    pub open spec fn idle(self) -> bool {
        !self.is_running && self.cancellation_token is None
    }

    /// The state after a generation has ended, or after an abort.
    pub open spec fn reset(self) -> GenerationStateView {
        GenerationStateView { is_running: false, cancellation_token: None, ..self }
    }

    /// The state after a generation has started with `token` as its
    /// cancellation handle, in place of any earlier one.
    pub open spec fn started(self, token: CancellationToken) -> GenerationStateView {
        GenerationStateView { is_running: true, cancellation_token: Some(token), ..self }
    }

    /// The state with `current` as its selection, and all else as it was.
    pub open spec fn selecting(self, current: Option<i64>) -> GenerationStateView {
        GenerationStateView { current_session_id: current, ..self }
    }

    /// The state after session `id` has been deleted: the selection falls back
    /// to the sentinel if it was `id`, and stays otherwise.
    pub open spec fn without_session(self, id: i64) -> GenerationStateView {
        if self.current_session_id == Some(id) {
            self.selecting(Some(NO_SESSION))
        } else {
            self
        }
    }
}

/// The state of the coordination, one for the whole application.
pub struct GenerationState {
    /// Whether a generation is under way.
    pub is_running: bool,
    /// The selected session; absent or the sentinel where none is selected.
    pub current_session_id: Option<i64>,
    /// The handle by which the generation under way is cancelled.
    pub cancellation_token: Option<CancellationToken>,
}

impl View for GenerationState {
    type V = GenerationStateView;

    open spec fn view(&self) -> GenerationStateView {
        GenerationStateView {
            is_running: self.is_running,
            current_session_id: self.current_session_id,
            cancellation_token: self.cancellation_token,
        }
    }
}

impl Default for GenerationState {
    fn default() -> (state: GenerationState)
        ensures
            state@.idle(),
            state@.current_session_id == Some(NO_SESSION),
    {
        GenerationState {
            is_running: false,
            current_session_id: Some(NO_SESSION),
            cancellation_token: None,
        }
    }
}

impl GenerationState {
    /// The selected session, if one is selected.
    pub fn selected_session(&self) -> (id: Option<i64>)
        ensures
            id == selected(self@.current_session_id),
    {
        match self.current_session_id {
            Some(id) => if id != NO_SESSION {
                Some(id)
            } else {
                None
            },
            None => None,
        }
    }

    /// Replaces the selection.
    pub fn select(&mut self, current: Option<i64>)
        ensures
            final(self)@ == old(self)@.selecting(current),
            final(self).cancellation_token == old(self).cancellation_token,
            final(self).is_running == old(self).is_running,
    {
        self.current_session_id = current;
    }

    /// Takes note that session `id` has been deleted.
    pub fn forget_session(&mut self, id: i64)
        ensures
            final(self)@ == old(self)@.without_session(id),
            final(self).cancellation_token == old(self).cancellation_token,
            final(self).is_running == old(self).is_running,
    {
        match self.current_session_id {
            Some(current) => {
                if current == id {
                    self.current_session_id = Some(NO_SESSION);
                }
            },
            None => {},
        }
    }

    /// Marks a generation as running and installs a fresh cancellation handle
    /// in place of any earlier one. Returns a second handle on the same token,
    /// for the generation to watch.
    pub fn start(&mut self) -> (watch: CancellationToken)
        ensures
            final(self)@ == old(self)@.started(watch),
    {
        let token = CancellationToken::new();
        let watch = token.clone();
        self.is_running = true;
        self.cancellation_token = Some(token);
        watch
    }

    /// Marks the generation as ended and drops the cancellation handle, without
    /// signalling it.
    pub fn finish(&mut self)
        ensures
            final(self)@ == old(self)@.reset(),
    {
        self.is_running = false;
        self.cancellation_token = None;
    }

    /// Signals the cancellation handle if one is installed, then marks the
    /// generation as ended and drops the handle.
    pub fn cancel(&mut self)
        ensures
            final(self)@ == old(self)@.reset(),
            old(self)@.idle() ==> final(self)@ == old(self)@,
    {
        match &self.cancellation_token {
            Some(token) => {
                token.cancel();
            },
            None => {},
        }
        self.is_running = false;
        self.cancellation_token = None;
    }
}

} // verus!
