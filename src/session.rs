use vstd::prelude::*;
use crate::ingress::{base64_decoded, image_from_base64, IngressError};
use crate::pipeline::DetectionResult;

verus! {

/// A text request: its `type` and, for a detection, the base64 image.
#[derive(Clone, Debug)]
pub struct WsRequest {
    pub msg_type: String,
    pub image: Option<String>,
}

/// Why a detection produced no result.
#[derive(Debug)]
pub enum DetectFailure {
    /// The image text was not valid base64.
    InvalidBase64(String),
    /// The detector itself failed.
    DetectorFailed(String),
}

/// The `type` of a reply.
#[derive(Clone, Copy, Debug, PartialEq, Eq, Structural)]
pub enum ReplyKind {
    Connected,
    DetectionResult,
    Close,
    Error,
}

/// The fixed wording of a reply.
#[derive(Clone, Debug, PartialEq, Eq)]
pub enum Notice {
    Connected,
    Closing,
    /// A detection ran; its result says what was found.
    Detection,
    DetectionFailed,
    BinaryDetectionFailed,
    MissingImage,
    UnknownType(String),
    InvalidRequest,
}

/// The detail of an error reply.
#[derive(Debug)]
pub enum Fault {
    NoImageField,
    UnsupportedType,
    /// The text message was not a request; the parser's explanation.
    Unparsable(String),
    Detection(DetectFailure),
}

/// One reply on the connection.
#[derive(Debug)]
pub struct WsReply {
    pub kind: ReplyKind,
    pub success: bool,
    pub notice: Notice,
    pub result: Option<DetectionResult>,
    pub error: Option<Fault>,
}

/// What arrived on the connection.
#[derive(Debug)]
pub enum WsEvent {
    Text(WsRequest),
    /// A text message that is not a request; the parser's explanation.
    Unparsable(String),
    Binary(Vec<u8>),
    Ping(Vec<u8>),
    Pong,
    /// The peer closed the connection.
    Closed,
    /// The transport failed.
    Broken,
}

/// What the connection must do next.
#[derive(Debug)]
pub enum WsAction {
    /// Send the reply and keep reading.
    Send(WsReply),
    /// Send the reply, then end the connection.
    SendAndClose(WsReply),
    /// Run a detection on these image bytes and report its outcome.
    Detect(Vec<u8>),
    /// Answer a ping with these bytes.
    Pong(Vec<u8>),
    /// Nothing to send; keep reading.
    Wait,
    /// End the connection.
    End,
}

pub open spec fn reply(kind: ReplyKind, success: bool, notice: Notice, error: Option<Fault>) -> WsReply {
    WsReply { kind, success, notice, result: None, error }
}

/// The reply to a finished detection, from a text (`binary` false) or a
/// binary request.
pub open spec fn detection_reply(outcome: Result<DetectionResult, DetectFailure>, binary: bool) -> WsReply {
    match outcome {
        Ok(res) => WsReply {
            kind: ReplyKind::DetectionResult,
            success: res.success,
            notice: Notice::Detection,
            result: Some(res),
            error: None,
        },
        Err(f) => reply(
            ReplyKind::Error,
            false,
            if binary { Notice::BinaryDetectionFailed } else { Notice::DetectionFailed },
            Some(Fault::Detection(f)),
        ),
    }
}

/// One connection's progress. Messages are handled one at a time: while a
/// detection runs, nothing else is read.
#[derive(Debug)]
pub struct WsSession {
    open: bool,
    pending: Option<bool>,
}

impl WsSession {
    pub closed spec fn is_open(&self) -> bool {
        self.open
    }

    /// The detection being waited for, and whether it came as binary.
    pub closed spec fn pending(&self) -> Option<bool> {
        self.pending
    }

    /// A new connection and its greeting.
    pub fn connect() -> (r: (WsSession, WsReply))
        ensures
            r.0.is_open(),
            r.0.pending().is_none(),
            r.1 == reply(ReplyKind::Connected, true, Notice::Connected, None),
    {
        (
            WsSession { open: true, pending: None },
            WsReply {
                kind: ReplyKind::Connected,
                success: true,
                notice: Notice::Connected,
                result: None,
                error: None,
            },
        )
    }

    pub fn open(&self) -> (r: bool)
        ensures
            r == self.is_open(),
    {
        self.open
    }

    pub fn awaiting_detection(&self) -> (r: bool)
        ensures
            r == self.pending().is_some(),
    {
        self.pending.is_some()
    }

    /// Handles one message. A `detect` request with valid base64 and a binary
    /// message ask for a detection; `close` is acknowledged and ends the
    /// connection; any other type gets an error reply and the connection stays.
    pub fn on_event(&mut self, event: WsEvent) -> (r: WsAction)
        requires
            old(self).pending().is_none(),
        ensures
            !old(self).is_open() ==> r is End && *final(self) == *old(self),
            old(self).is_open() ==> on_event_spec(event, r, *final(self)),
    {
        if !self.open {
            return WsAction::End;
        }
        match event {
            WsEvent::Text(request) => self.on_request(request),
            WsEvent::Unparsable(reason) => WsAction::Send(
                WsReply {
                    kind: ReplyKind::Error,
                    success: false,
                    notice: Notice::InvalidRequest,
                    result: None,
                    error: Some(Fault::Unparsable(reason)),
                },
            ),
            WsEvent::Binary(bytes) => {
                self.pending = Some(true);
                WsAction::Detect(bytes)
            },
            WsEvent::Ping(bytes) => WsAction::Pong(bytes),
            WsEvent::Pong => WsAction::Wait,
            WsEvent::Closed => {
                self.open = false;
                WsAction::End
            },
            WsEvent::Broken => {
                self.open = false;
                WsAction::End
            },
        }
    }

    fn on_request(&mut self, request: WsRequest) -> (r: WsAction)
        requires
            old(self).is_open(),
            old(self).pending().is_none(),
        ensures
            request_spec(request, r, *final(self)),
    {
        let kind = request.msg_type;
        let detect = "detect".to_string();
        let close = "close".to_string();
        proof {
            vstd::string::to_string_from_display_ensures_for_str("detect", detect);
            vstd::string::to_string_from_display_ensures_for_str("close", close);
        }
        if kind == detect {
            let decoded = match &request.image {
                Some(text) => image_from_base64(Some(text.as_str())),
                None => image_from_base64(None),
            };
            match decoded {
                Ok(bytes) => {
                    self.pending = Some(false);
                    WsAction::Detect(bytes)
                },
                Err(IngressError::MissingImage) => WsAction::Send(
                    WsReply {
                        kind: ReplyKind::Error,
                        success: false,
                        notice: Notice::MissingImage,
                        result: None,
                        error: Some(Fault::NoImageField),
                    },
                ),
                Err(IngressError::InvalidBase64(reason)) => WsAction::Send(
                    WsReply {
                        kind: ReplyKind::Error,
                        success: false,
                        notice: Notice::DetectionFailed,
                        result: None,
                        error: Some(Fault::Detection(DetectFailure::InvalidBase64(reason))),
                    },
                ),
            }
        } else if kind == close {
            self.open = false;
            WsAction::SendAndClose(
                WsReply {
                    kind: ReplyKind::Close,
                    success: true,
                    notice: Notice::Closing,
                    result: None,
                    error: None,
                },
            )
        } else {
            WsAction::Send(
                WsReply {
                    kind: ReplyKind::Error,
                    success: false,
                    notice: Notice::UnknownType(kind),
                    result: None,
                    error: Some(Fault::UnsupportedType),
                },
            )
        }
    }

    /// Reports the outcome of the detection the connection was waiting for.
    pub fn on_detection(&mut self, outcome: Result<DetectionResult, DetectFailure>) -> (r: WsAction)
        requires
            old(self).pending().is_some(),
        ensures
            final(self).pending().is_none(),
            final(self).is_open() == old(self).is_open(),
            r == WsAction::Send(detection_reply(outcome, old(self).pending()->0)),
    {
        let binary = match self.pending {
            Some(b) => b,
            None => false,
        };
        self.pending = None;
        match outcome {
            Ok(res) => WsAction::Send(
                WsReply {
                    kind: ReplyKind::DetectionResult,
                    success: res.success,
                    notice: Notice::Detection,
                    result: Some(res),
                    error: None,
                },
            ),
            Err(f) => WsAction::Send(
                WsReply {
                    kind: ReplyKind::Error,
                    success: false,
                    notice: if binary {
                        Notice::BinaryDetectionFailed
                    } else {
                        Notice::DetectionFailed
                    },
                    result: None,
                    error: Some(Fault::Detection(f)),
                },
            ),
        }
    }

    /// A reply could not be sent: the connection ends.
    pub fn on_send_failed(&mut self)
        ensures
            !final(self).is_open(),
            final(self).pending().is_none(),
    {
        self.open = false;
        self.pending = None;
    }
}

/// What a text request leads to on an open connection.
pub open spec fn request_spec(request: WsRequest, r: WsAction, post: WsSession) -> bool {
    if request.msg_type@ == "detect"@ {
        match request.image {
            None => {
                &&& r == WsAction::Send(
                    reply(ReplyKind::Error, false, Notice::MissingImage, Some(Fault::NoImageField)),
                )
                &&& post.is_open() && post.pending().is_none()
            },
            Some(text) => match base64_decoded(text@) {
                Some(bytes) => {
                    &&& post.is_open() && post.pending() == Some(false)
                    &&& r matches WsAction::Detect(b) && b@ == bytes
                },
                None => {
                    &&& post.is_open() && post.pending().is_none()
                    &&& r matches WsAction::Send(rep) && rep.kind == ReplyKind::Error && !rep.success
                        && rep.notice == Notice::DetectionFailed && rep.result.is_none()
                        && rep.error matches Some(Fault::Detection(DetectFailure::InvalidBase64(_)))
                },
            },
        }
    } else if request.msg_type@ == "close"@ {
        &&& r == WsAction::SendAndClose(reply(ReplyKind::Close, true, Notice::Closing, None))
        &&& !post.is_open() && post.pending().is_none()
    } else {
        &&& r == WsAction::Send(
            reply(
                ReplyKind::Error,
                false,
                Notice::UnknownType(request.msg_type),
                Some(Fault::UnsupportedType),
            ),
        )
        &&& post.is_open() && post.pending().is_none()
    }
}

/// What an event leads to on an open connection.
pub open spec fn on_event_spec(event: WsEvent, r: WsAction, post: WsSession) -> bool {
    match event {
        WsEvent::Text(request) => request_spec(request, r, post),
        WsEvent::Unparsable(reason) => {
            &&& r == WsAction::Send(
                reply(ReplyKind::Error, false, Notice::InvalidRequest, Some(Fault::Unparsable(reason))),
            )
            &&& post.is_open() && post.pending().is_none()
        },
        WsEvent::Binary(bytes) => {
            &&& r == WsAction::Detect(bytes)
            &&& post.is_open() && post.pending() == Some(true)
        },
        WsEvent::Ping(bytes) => {
            &&& r == WsAction::Pong(bytes)
            &&& post.is_open() && post.pending().is_none()
        },
        WsEvent::Pong => {
            &&& r is Wait
            &&& post.is_open() && post.pending().is_none()
        },
        WsEvent::Closed | WsEvent::Broken => {
            &&& r is End
            &&& !post.is_open() && post.pending().is_none()
        },
    }
}

} // verus!
