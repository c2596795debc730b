//! The realtime transcription session of one WebSocket connection, as a
//! state machine: each client event (and each adapter reply) moves the
//! session and says what to do next — send a message, ask the adapter for
//! something, or end. Socket and adapter calls are the caller's part.
use vstd::prelude::*;

use crate::text::{concat, owned};

verus! {

/// A message to the client.
#[derive(Debug)]
pub enum ServerMessage {
    Started { session_id: String },
    Partial { text: String },
    Final { text: String },
    Completed { session_id: String },
    Error { code: &'static str, message: String },
}

/// What arrived on the socket.
#[derive(Debug)]
pub enum ClientEvent {
    /// A text frame that is not a valid client message (parse error).
    Unparseable(String),
    /// `start`; whether its sample format is 16-bit little-endian PCM.
    Start { s16le: bool, sample_rate: u32, language: Option<String> },
    /// A binary frame of audio.
    Audio,
    /// `complete`: finish the session.
    Complete,
    /// `cancel`: drop the session.
    Cancel,
    /// The client closed the connection.
    Close,
    /// The transport failed.
    Failed,
    /// Any other frame (ping, pong).
    Other,
}

/// What to do next.
#[derive(Debug)]
pub enum Step {
    /// Send this message, then wait for the next event.
    Reply(ServerMessage),
    /// Ask the adapter for its selected model, then [`Session::on_selected_model`].
    QuerySelectedModel { sample_rate: u32, language: Option<String> },
    /// Create a context for `model`, then [`Session::on_context`].
    CreateContext { model: u64, sample_rate: u32, language: Option<String> },
    /// Feed the frame's samples to context `context`, then [`Session::on_fed`].
    Feed { context: u64 },
    /// Finalize context `context`, then [`Session::on_finalized`].
    Finalize { context: u64, session_id: String },
    /// Destroy context `context`, then send `Completed` with a fresh
    /// session id.
    Cancel { context: u64 },
    /// Nothing to do; wait for the next event.
    Continue,
    /// Leave the loop (then [`Session::on_end`]).
    End,
}

/// The session of one connection: no context yet, or an active realtime
/// context (its handle and session id).
pub struct Session {
    active: Option<(u64, String)>,
}

pub open spec fn error_step(r: Step, code: Seq<char>, message: Seq<char>) -> bool {
    r matches Step::Reply(ServerMessage::Error { code: c, message: m }) && c@ == code && m@ == message
}

impl Session {
    pub closed spec fn active_view(&self) -> Option<(u64, Seq<char>)> {
        match self.active {
            Some((c, s)) => Some((c, s@)),
            None => None,
        }
    }

    /// A session with no context.
    pub fn new() -> (r: Session)
        ensures
            r.active_view() is None,
    {
        Session { active: None }
    }

    /// Reacts to a client event. Unparseable text is answered with
    /// `INVALID_MESSAGE`; `start` with another sample format with
    /// `UNSUPPORTED_FORMAT`, otherwise it asks for the selected model;
    /// audio goes to the active context (`NO_SESSION` without one);
    /// `complete` finalizes and `cancel` destroys the active context (the
    /// session has none afterwards); close and transport failure end the
    /// loop.
    pub fn on_event(&mut self, ev: ClientEvent) -> (r: Step)
        ensures
            match ev {
                ClientEvent::Unparseable(e) => error_step(r, "INVALID_MESSAGE"@, "invalid message format: "@ + e@)
                    && final(self).active_view() == old(self).active_view(),
                ClientEvent::Start { s16le, sample_rate, language } => final(self).active_view() == old(
                    self,
                ).active_view() && if s16le {
                    r matches Step::QuerySelectedModel { sample_rate: s, language: l } && s
                        == sample_rate && l == language
                } else {
                    error_step(
                        r,
                        "UNSUPPORTED_FORMAT"@,
                        "only 16kHz mono signed 16-bit little-endian PCM is supported"@,
                    )
                },
                ClientEvent::Audio => final(self).active_view() == old(self).active_view() && match old(
                    self,
                ).active_view() {
                    Some((c, _)) => r matches Step::Feed { context } && context == c,
                    None => error_step(r, "NO_SESSION"@, "no active session; send 'start' first"@),
                },
                ClientEvent::Complete => final(self).active_view() is None && match old(
                    self,
                ).active_view() {
                    Some((c, s)) => r matches Step::Finalize { context, session_id } && context == c
                        && session_id@ == s,
                    None => r is Continue,
                },
                ClientEvent::Cancel => final(self).active_view() is None && match old(
                    self,
                ).active_view() {
                    Some((c, _)) => r matches Step::Cancel { context } && context == c,
                    None => r is Continue,
                },
                ClientEvent::Close => r is End && final(self).active_view() == old(self).active_view(),
                ClientEvent::Failed => r is End && final(self).active_view() == old(self).active_view(),
                ClientEvent::Other => r is Continue && final(self).active_view() == old(
                    self,
                ).active_view(),
            },
    {
        match ev {
            ClientEvent::Unparseable(e) => Step::Reply(
                ServerMessage::Error {
                    code: "INVALID_MESSAGE",
                    message: concat("invalid message format: ", e.as_str()),
                },
            ),
            ClientEvent::Start { s16le, sample_rate, language } => {
                if s16le {
                    Step::QuerySelectedModel { sample_rate, language }
                } else {
                    Step::Reply(
                        ServerMessage::Error {
                            code: "UNSUPPORTED_FORMAT",
                            message: owned(
                                "only 16kHz mono signed 16-bit little-endian PCM is supported",
                            ),
                        },
                    )
                }
            },
            ClientEvent::Audio => match &self.active {
                Some((c, _)) => Step::Feed { context: *c },
                None => Step::Reply(
                    ServerMessage::Error {
                        code: "NO_SESSION",
                        message: owned("no active session; send 'start' first"),
                    },
                ),
            },
            ClientEvent::Complete => match self.active.take() {
                Some((c, s)) => Step::Finalize { context: c, session_id: s },
                None => Step::Continue,
            },
            ClientEvent::Cancel => match self.active.take() {
                Some((c, _)) => Step::Cancel { context: c },
                None => Step::Continue,
            },
            ClientEvent::Close => Step::End,
            ClientEvent::Failed => Step::End,
            ClientEvent::Other => Step::Continue,
        }
    }

    /// After asking for the selected model: none selected (or the query
    /// failed) is answered with `NO_MODEL_SELECTED`; otherwise a context
    /// is created for it.
    pub fn on_selected_model(&self, model: Option<u64>, sample_rate: u32, language: Option<String>) -> (r:
        Step)
        ensures
            match model {
                Some(m) => r matches Step::CreateContext { model: x, sample_rate: s, language: l } && x
                    == m && s == sample_rate && l == language,
                None => error_step(r, "NO_MODEL_SELECTED"@, "no model specified and no default selected"@),
            },
    {
        match model {
            Some(m) => Step::CreateContext { model: m, sample_rate, language },
            None => Step::Reply(
                ServerMessage::Error {
                    code: "NO_MODEL_SELECTED",
                    message: owned("no model specified and no default selected"),
                },
            ),
        }
    }

    /// After creating a context: on success it becomes the active one
    /// (replacing any previous) and `Started` is sent; on failure
    /// `CONTEXT_ERROR` is sent and the session is unchanged.
    pub fn on_context(&mut self, created: Result<(u64, String), String>) -> (r: ServerMessage)
        ensures
            match created {
                Ok((c, s)) => final(self).active_view() == Some((c, s@)) && (r matches ServerMessage::Started {
                    session_id,
                } && session_id@ == s@),
                Err(e) => final(self).active_view() == old(self).active_view() && (r matches ServerMessage::Error {
                    code,
                    message,
                } && code@ == "CONTEXT_ERROR"@ && message@ == "failed to create context: "@ + e@),
            },
    {
        match created {
            Ok((c, s)) => {
                let sid = s.clone();
                self.active = Some((c, s));
                ServerMessage::Started { session_id: sid }
            },
            Err(e) => ServerMessage::Error {
                code: "CONTEXT_ERROR",
                message: concat("failed to create context: ", e.as_str()),
            },
        }
    }

    /// After feeding audio: one `Partial` per partial text, or
    /// `AUDIO_ERROR`.
    pub fn on_fed(&self, fed: Result<Vec<String>, String>) -> (r: Vec<ServerMessage>)
        ensures
            match fed {
                Ok(partials) => r@.len() == partials@.len() && forall|i: int|
                    0 <= i < r@.len() ==> (#[trigger] r@[i] matches ServerMessage::Partial { text }
                        && text@ == partials@[i]@),
                Err(e) => r@.len() == 1 && (r@[0] matches ServerMessage::Error { code, message }
                    && code@ == "AUDIO_ERROR"@ && message@ == "audio processing failed: "@ + e@),
            },
    {
        let mut out: Vec<ServerMessage> = Vec::new();
        match fed {
            Ok(partials) => {
                let mut i: usize = 0;
                while i < partials.len()
                    invariant
                        i <= partials@.len(),
                        out@.len() == i,
                        forall|k: int|
                            0 <= k < i ==> (#[trigger] out@[k] matches ServerMessage::Partial { text }
                                && text@ == partials@[k]@),
                    decreases partials.len() - i,
                {
                    out.push(ServerMessage::Partial { text: partials[i].clone() });
                    i += 1;
                }
            },
            Err(e) => {
                out.push(
                    ServerMessage::Error {
                        code: "AUDIO_ERROR",
                        message: concat("audio processing failed: ", e.as_str()),
                    },
                );
            },
        }
        out
    }

    /// After finalizing: `Final` with the text then `Completed` with the
    /// session id (the caller then destroys the context), or
    /// `FINALIZE_ERROR`.
    pub fn on_finalized(&self, finished: Result<String, String>, session_id: String) -> (r: Vec<
        ServerMessage,
    >)
        ensures
            match finished {
                Ok(text) => r@.len() == 2 && (r@[0] matches ServerMessage::Final { text: t } && t@
                    == text@) && (r@[1] matches ServerMessage::Completed { session_id: s } && s@
                    == session_id@),
                Err(e) => r@.len() == 1 && (r@[0] matches ServerMessage::Error { code, message }
                    && code@ == "FINALIZE_ERROR"@ && message@ == "finalize failed: "@ + e@),
            },
    {
        let mut out: Vec<ServerMessage> = Vec::new();
        match finished {
            Ok(text) => {
                out.push(ServerMessage::Final { text });
                out.push(ServerMessage::Completed { session_id });
            },
            Err(e) => {
                out.push(
                    ServerMessage::Error {
                        code: "FINALIZE_ERROR",
                        message: concat("finalize failed: ", e.as_str()),
                    },
                );
            },
        }
        out
    }

    /// When the loop ends: the context still active, for the caller to
    /// destroy.
    pub fn on_end(self) -> (r: Option<u64>)
        ensures
            r == match self.active_view() {
                Some((c, _)) => Some(c),
                None => None::<u64>,
            },
    {
        match self.active {
            Some((c, _)) => Some(c),
            None => None,
        }
    }
}

} // verus!
