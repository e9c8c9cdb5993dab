//! Session and request context.
//!
//! A client owns at most one session identifier; every request that does
//! not name a session of its own inherits the client's at dispatch time.
//! The context of one logical call carries the session, the absolute
//! deadline and the attempt counter across retries and streaming reads.

use vstd::prelude::*;
use crate::models::InferenceRequest;

verus! {

/// Relies on uuid::Uuid::new_v4 and its hyphenated formatting: a fresh
/// random identifier, thirty-six characters long. Nothing more can be
/// promised of a random value.
#[verifier::external_body]
pub fn generate_uuid() -> (r: String)
    ensures
        r@.len() == 36,
{
    uuid::Uuid::new_v4().hyphenated().to_string()
}

/// The client's session slot: one optional session identifier, read by
/// every dispatch and replaced or cleared as a whole.
#[derive(Debug, Clone)]
pub struct SessionStore {
    session_id: Option<String>,
}

impl SessionStore {
    /// The stored identifier.
    pub closed spec fn spec_session(&self) -> Option<Seq<char>> {
        match self.session_id {
            Some(s) => Some(s@),
            None => None,
        }
    }

    /// A store with no session.
    pub fn new() -> (r: Self)
        ensures
            r.spec_session() is None,
    {
        SessionStore { session_id: None }
    }

    /// Set the session identifier.
    pub fn set_session_id(&mut self, session_id: &str)
        ensures
            final(self).spec_session() matches Some(s) && s == session_id@,
    {
        self.session_id = Some(String::from_str(session_id));
    }

    /// Clear the session identifier.
    pub fn clear_session(&mut self)
        ensures
            final(self).spec_session() is None,
    {
        self.session_id = None;
    }

    /// The current session identifier.
    pub fn get_session_id(&self) -> (r: Option<String>)
        ensures
            match (r, self.spec_session()) {
                (Some(s), Some(v)) => s@ == v,
                (None, None) => true,
                _ => false,
            },
    {
        match &self.session_id {
            Some(s) => Some(s.clone()),
            None => None,
        }
    }

    /// Hand the stored session to a request that names none of its own,
    /// leaving a request with its own session untouched.
    pub fn apply_to(&self, request: &mut InferenceRequest)
        ensures
            final(request).prompt == old(request).prompt,
            final(request).model_id == old(request).model_id,
            final(request).options == old(request).options,
            match old(request).session_id {
                Some(_) => final(request).session_id == old(request).session_id,
                None => match (final(request).session_id, self.spec_session()) {
                    (Some(s), Some(v)) => s@ == v,
                    (None, None) => true,
                    _ => false,
                },
            },
    {
        if request.session_id.is_none() {
            request.session_id = self.get_session_id();
        }
    }
}

/// Context of one logical call: its session, its absolute deadline, and
/// the attempt counter that only the retry engine moves.
#[derive(Debug, Clone)]
pub struct RequestContext {
    /// Session identifier, if one accompanies the call.
    pub session_id: Option<String>,
    /// Absolute deadline in milliseconds since the epoch, if one is set.
    pub deadline_ms: Option<u64>,
    /// Number of attempts made so far.
    pub attempt_count: u32,
}

impl RequestContext {
    /// A fresh context with neither session nor deadline.
    pub fn new() -> (r: Self)
        ensures
            r.session_id is None,
            r.deadline_ms is None,
            r.attempt_count == 0,
    {
        RequestContext { session_id: None, deadline_ms: None, attempt_count: 0 }
    }

    /// Count one more attempt, saturating at the counter's range.
    pub fn record_attempt(&mut self)
        ensures
            final(self).session_id == old(self).session_id,
            final(self).deadline_ms == old(self).deadline_ms,
            final(self).attempt_count == (if old(self).attempt_count < u32::MAX {
                old(self).attempt_count + 1
            } else {
                old(self).attempt_count as int
            }),
    {
        if self.attempt_count < u32::MAX {
            self.attempt_count = self.attempt_count + 1;
        }
    }

    /// Whether the deadline has passed at the given clock reading.
    pub fn deadline_passed(&self, now_ms: u64) -> (r: bool)
        ensures
            r == match self.deadline_ms {
                Some(d) => now_ms > d,
                None => false,
            },
    {
        match self.deadline_ms {
            Some(d) => now_ms > d,
            None => false,
        }
    }
}

} // verus!
