//! Messages: every observable event of a run, framed for the controller.

use crate::status::Status;
use vstd::prelude::*;

verus! {

/// One message to the controller. Each kind carries exactly the fields that
/// belong to it, so a message with a missing or a stray field cannot be built.
#[derive(Clone, Debug, PartialEq, Eq)]
pub enum Message {
    /// Nothing is running.
    Idle,
    /// A run has begun.
    Start,
    /// A diagnostic line, with the level it was logged at.
    Processing { level: String, text: String },
    /// A preview of the result so far.
    Intermediate { artifact: String },
    /// The final result; closes the run.
    Finished { artifact: String },
    /// The reason the run failed; closes the run.
    Error { text: String },
}

/// A message with its strings as sequences of characters.
pub enum MessageView {
    Idle,
    Start,
    Processing { level: Seq<char>, text: Seq<char> },
    Intermediate { artifact: Seq<char> },
    Finished { artifact: Seq<char> },
    Error { text: Seq<char> },
}

impl View for Message {
    type V = MessageView;

    open spec fn view(&self) -> MessageView {
        match self {
            Message::Idle => MessageView::Idle,
            Message::Start => MessageView::Start,
            Message::Processing { level, text } => MessageView::Processing {
                level: level@,
                text: text@,
            },
            Message::Intermediate { artifact } => MessageView::Intermediate { artifact: artifact@ },
            Message::Finished { artifact } => MessageView::Finished { artifact: artifact@ },
            Message::Error { text } => MessageView::Error { text: text@ },
        }
    }
}

impl MessageView {
    /// The kind of this message.
    pub open spec fn status(self) -> Status {
        match self {
            MessageView::Idle => Status::Idle,
            MessageView::Start => Status::Start,
            MessageView::Processing { .. } => Status::Processing,
            MessageView::Intermediate { .. } => Status::Intermediate,
            MessageView::Finished { .. } => Status::Finished,
            MessageView::Error { .. } => Status::Error,
        }
    }

    /// The record that goes over the wire for this message.
    pub open spec fn wire(self) -> WireView {
        match self {
            MessageView::Idle | MessageView::Start => WireView {
                kind: self.status().wire(),
                level: None,
                text: None,
                artifact: None,
            },
            MessageView::Processing { level, text } => WireView {
                kind: self.status().wire(),
                level: Some(level),
                text: Some(text),
                artifact: None,
            },
            MessageView::Intermediate { artifact }
            | MessageView::Finished { artifact } => WireView {
                kind: self.status().wire(),
                level: None,
                text: None,
                artifact: Some(artifact),
            },
            MessageView::Error { text } => WireView {
                kind: self.status().wire(),
                level: None,
                text: Some(text),
                artifact: None,
            },
        }
    }
}

/// The flat record in which a message travels: its kind by name under the
/// key `type`, and the optional fields `level`, `text` and `artifact`.
#[derive(Clone, Debug, PartialEq, Eq)]
pub struct WireMessage {
    pub kind: String,
    pub level: Option<String>,
    pub text: Option<String>,
    pub artifact: Option<String>,
}

/// A wire record with its strings as sequences of characters.
pub struct WireView {
    pub kind: Seq<char>,
    pub level: Option<Seq<char>>,
    pub text: Option<Seq<char>>,
    pub artifact: Option<Seq<char>>,
}

pub open spec fn text_view(s: Option<String>) -> Option<Seq<char>> {
    match s {
        Some(s) => Some(s@),
        None => None,
    }
}

impl View for WireMessage {
    type V = WireView;

    open spec fn view(&self) -> WireView {
        WireView {
            kind: self.kind@,
            level: text_view(self.level),
            text: text_view(self.text),
            artifact: text_view(self.artifact),
        }
    }
}

impl Message {
    pub fn status(&self) -> (kind: Status)
        ensures
            kind == self@.status(),
    {
        match self {
            Message::Idle => Status::Idle,
            Message::Start => Status::Start,
            Message::Processing { .. } => Status::Processing,
            Message::Intermediate { .. } => Status::Intermediate,
            Message::Finished { .. } => Status::Finished,
            Message::Error { .. } => Status::Error,
        }
    }

    pub fn is_terminal(&self) -> (b: bool)
        ensures
            b == self@.status().terminal(),
    {
        self.status().is_terminal()
    }

    /// The record to send for this message.
    pub fn to_wire(&self) -> (wire: WireMessage)
        ensures
            wire@ == self@.wire(),
    {
        let kind = self.status().to_string();
        match self {
            Message::Idle | Message::Start => WireMessage {
                kind,
                level: None,
                text: None,
                artifact: None,
            },
            Message::Processing { level, text } => WireMessage {
                kind,
                level: Some(level.clone()),
                text: Some(text.clone()),
                artifact: None,
            },
            Message::Intermediate { artifact } | Message::Finished { artifact } => WireMessage {
                kind,
                level: None,
                text: None,
                artifact: Some(artifact.clone()),
            },
            Message::Error { text } => WireMessage {
                kind,
                level: None,
                text: Some(text.clone()),
                artifact: None,
            },
        }
    }
}

/// The wire record determines the message: two messages that travel as the
/// same record are the same message.
pub proof fn wire_injective(a: MessageView, b: MessageView)
    requires
        a.wire() == b.wire(),
    ensures
        a == b,
{
    crate::status::wire_names_distinct(a.status(), b.status());
}

} // verus!
