//! The data that the responder reads and the side effects that it asks for.

use vstd::prelude::*;

verus! {

/// The message that another message replies to.
#[derive(Clone, Debug, PartialEq, Eq)]
pub struct ReferencedMessage {
    pub content: String,
}

/// One message event as the gateway delivers it.
#[derive(Clone, Debug, PartialEq, Eq)]
pub struct InboundMessage {
    pub author_id: u64,
    pub channel_id: u64,
    pub content: String,
    pub referenced_message: Option<ReferencedMessage>,
}

impl InboundMessage {
    /// Whether the message is a reply to another one.
    pub open spec fn is_reply(&self) -> bool {
        self.referenced_message is Some
    }

    /// The text of the message replied to, empty where there is none.
    pub open spec fn referenced_text(&self) -> Seq<char> {
        match self.referenced_message {
            Some(referenced) => referenced.content@,
            None => Seq::empty(),
        }
    }
}

/// The message that an effect acts on.
#[derive(Clone, Copy, Debug, PartialEq, Eq, Structural)]
pub enum Target {
    /// The message that set the handler off.
    Triggering,
    /// The message that the triggering message replies to.
    Referenced,
}

/// A reaction: a standard glyph or a reference to a custom emoji.
#[derive(Clone, Debug, PartialEq, Eq)]
pub enum ReactionSpec {
    Unicode(String),
    Custom { animated: bool, id: u64, name: Option<String> },
}

/// What a `ReactionSpec` stands for.
pub enum ReactionView {
    Unicode(Seq<char>),
    Custom { animated: bool, id: u64, name: Option<Seq<char>> },
}

impl View for ReactionSpec {
    type V = ReactionView;

    open spec fn view(&self) -> ReactionView {
        match self {
            ReactionSpec::Unicode(glyph) => ReactionView::Unicode(glyph@),
            ReactionSpec::Custom { animated, id, name } => ReactionView::Custom {
                animated: *animated,
                id: *id,
                name: match name {
                    Some(text) => Some(text@),
                    None => None,
                },
            },
        }
    }
}

impl DeepView for ReactionSpec {
    type V = ReactionView;

    open spec fn deep_view(&self) -> ReactionView {
        self@
    }
}

impl ReactionView {
    /// A custom emoji is referred to by a platform identifier, which is never zero.
    pub open spec fn wf(self) -> bool {
        self matches ReactionView::Custom { id, .. } ==> id != 0
    }
}

/// One call into the chat platform, or one step of the typing indicator.
#[derive(Clone, Debug, PartialEq, Eq)]
pub enum Effect {
    /// Add a reaction to a message.
    React { target: Target, reaction: ReactionSpec },
    /// Answer a message with a text.
    Reply { target: Target, text: String },
    /// Send a text to a channel.
    Say { channel_id: u64, text: String },
    /// Delete a message.
    Delete { target: Target },
    /// Pin a message.
    Pin { target: Target },
    /// Show the typing indicator on a channel.
    StartTyping { channel_id: u64 },
    /// Wait for a number of seconds.
    Hold { seconds: u64 },
    /// Take the typing indicator away.
    StopTyping,
}

/// What an `Effect` stands for.
pub enum EffectView {
    React { target: Target, reaction: ReactionView },
    Reply { target: Target, text: Seq<char> },
    Say { channel_id: u64, text: Seq<char> },
    Delete { target: Target },
    Pin { target: Target },
    StartTyping { channel_id: u64 },
    Hold { seconds: u64 },
    StopTyping,
}

impl View for Effect {
    type V = EffectView;

    open spec fn view(&self) -> EffectView {
        match self {
            Effect::React { target, reaction } => EffectView::React {
                target: *target,
                reaction: reaction@,
            },
            Effect::Reply { target, text } => EffectView::Reply { target: *target, text: text@ },
            Effect::Say { channel_id, text } => EffectView::Say {
                channel_id: *channel_id,
                text: text@,
            },
            Effect::Delete { target } => EffectView::Delete { target: *target },
            Effect::Pin { target } => EffectView::Pin { target: *target },
            Effect::StartTyping { channel_id } => EffectView::StartTyping {
                channel_id: *channel_id,
            },
            Effect::Hold { seconds } => EffectView::Hold { seconds: *seconds },
            Effect::StopTyping => EffectView::StopTyping,
        }
    }
}

impl DeepView for Effect {
    type V = EffectView;

    open spec fn deep_view(&self) -> EffectView {
        self@
    }
}

impl EffectView {
    /// The message that the effect acts on, where it acts on one.
    pub open spec fn target(self) -> Option<Target> {
        match self {
            EffectView::React { target, .. } => Some(target),
            EffectView::Reply { target, .. } => Some(target),
            EffectView::Delete { target } => Some(target),
            EffectView::Pin { target } => Some(target),
            _ => None,
        }
    }

    /// Whether the effect is a call that the platform may reject.
    pub open spec fn is_platform_call(self) -> bool {
        !(self is StartTyping || self is Hold || self is StopTyping)
    }
}

/// One effect of a handler, with what is to be logged once it was tried.
#[derive(Clone, Debug, PartialEq, Eq)]
pub struct Step {
    pub effect: Effect,
    /// The context of the error line, where a failure is logged.
    pub on_failure: Option<String>,
    /// The informational line, where a success is logged.
    pub on_success: Option<String>,
}

/// What a `Step` stands for.
pub struct StepView {
    pub effect: EffectView,
    pub on_failure: Option<Seq<char>>,
    pub on_success: Option<Seq<char>>,
}

impl View for Step {
    type V = StepView;

    open spec fn view(&self) -> StepView {
        StepView {
            effect: self.effect@,
            on_failure: match self.on_failure {
                Some(text) => Some(text@),
                None => None,
            },
            on_success: match self.on_success {
                Some(text) => Some(text@),
                None => None,
            },
        }
    }
}

impl DeepView for Step {
    type V = StepView;

    open spec fn deep_view(&self) -> StepView {
        self@
    }
}

} // verus!
