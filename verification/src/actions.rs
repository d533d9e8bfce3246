//! The action handlers: the effects that each one asks for, in order.

use vstd::prelude::*;
use vstd::string::StringExecFns;

use crate::command::Command;
use crate::emoji::{
    emoji_image_url, find_mention, first_mention, identifier_text, image_url, mention_of,
    reaction_text, Mention, MentionView,
};
use crate::handler::{Handler, Identities};
use crate::model::{
    Effect, EffectView, InboundMessage, ReactionSpec, ReactionView, Step, StepView, Target,
};
use crate::text::lowercase_of;

verus! {

/// How long the typing indicator is held.
pub const TYPING_SECONDS: u64 = 20;

/// A call into the platform whose failure is logged under `on_failure`.
pub open spec fn call(effect: EffectView, on_failure: Seq<char>) -> StepView {
    StepView { effect, on_failure: Some(on_failure), on_success: None }
}

/// A step of the typing indicator: nothing is logged of it.
pub open spec fn quiet(effect: EffectView) -> StepView {
    StepView { effect, on_failure: None, on_success: None }
}

/// The deletion of the triggering message.
pub open spec fn delete_command() -> StepView {
    call(EffectView::Delete { target: Target::Triggering }, "Failed to delete command message"@)
}

/// A reaction on the referenced message.
pub open spec fn react_to_referenced(
    glyph: Seq<char>,
    on_failure: Seq<char>,
    on_success: Option<Seq<char>>,
) -> StepView {
    StepView {
        effect: EffectView::React {
            target: Target::Referenced,
            reaction: ReactionView::Unicode(glyph),
        },
        on_failure: Some(on_failure),
        on_success,
    }
}

/// The shape that sob, broken and fire share: the reaction on the referenced
/// message where there is one, then the deletion of the triggering message.
pub open spec fn reaction_plan(
    is_reply: bool,
    glyph: Seq<char>,
    on_failure: Seq<char>,
    on_success: Option<Seq<char>>,
) -> Seq<StepView> {
    if is_reply {
        seq![react_to_referenced(glyph, on_failure, on_success), delete_command()]
    } else {
        seq![delete_command()]
    }
}

pub open spec fn sob_plan(is_reply: bool) -> Seq<StepView> {
    reaction_plan(is_reply, "😭"@, "Failed to add reaction"@, Some("Added sob reaction"@))
}

pub open spec fn broken_plan(is_reply: bool) -> Seq<StepView> {
    reaction_plan(
        is_reply,
        "💔"@,
        "Failed to add reaction"@,
        Some("Added broken heart reaction"@),
    )
}

pub open spec fn fire_plan(is_reply: bool) -> Seq<StepView> {
    reaction_plan(is_reply, "🔥"@, "Failed to add fire reaction"@, None)
}

/// The referenced message is deleted, then the triggering one; without a
/// referenced message nothing is done.
pub open spec fn delete_plan(is_reply: bool) -> Seq<StepView> {
    if is_reply {
        seq![
            call(EffectView::Delete { target: Target::Referenced }, "Failed to delete message"@),
            delete_command(),
        ]
    } else {
        Seq::empty()
    }
}

/// The referenced message is pinned; without one nothing is done.
pub open spec fn pin_plan(is_reply: bool) -> Seq<StepView> {
    if is_reply {
        seq![call(EffectView::Pin { target: Target::Referenced }, "Failed to pin message"@)]
    } else {
        Seq::empty()
    }
}

/// The referenced message is answered; without one nothing is done.
pub open spec fn sybau_plan(is_reply: bool) -> Seq<StepView> {
    if is_reply {
        seq![
            call(
                EffectView::Reply { target: Target::Referenced, text: "yeah sybau"@ },
                "Failed to send reply"@,
            ),
        ]
    } else {
        Seq::empty()
    }
}

/// The custom emoji that the lance handler reacts with.
pub open spec fn lance_emoji(emoji_id: u64) -> ReactionView {
    ReactionView::Custom { animated: false, id: emoji_id, name: Some("lance"@) }
}

/// The text of the lance handler's reply: the emoji's written form, once
/// more between `<:lance:` and `>`.
pub open spec fn lance_reply(emoji_id: u64) -> Seq<char> {
    "<:lance:"@ + mention_of(lance_emoji(emoji_id)) + ">"@
}

/// The triggering message gets the custom emoji as a reaction, then a reply.
pub open spec fn lance_plan(emoji_id: u64) -> Seq<StepView> {
    seq![
        call(
            EffectView::React { target: Target::Triggering, reaction: lance_emoji(emoji_id) },
            "Failed to react"@,
        ),
        call(
            EffectView::Reply { target: Target::Triggering, text: lance_reply(emoji_id) },
            "Failed to reply"@,
        ),
    ]
}

/// The triggering message is deleted; then the typing indicator is shown on
/// its channel, held and taken away.
pub open spec fn type_plan(channel_id: u64) -> Seq<StepView> {
    seq![
        delete_command(),
        quiet(EffectView::StartTyping { channel_id }),
        quiet(EffectView::Hold { seconds: TYPING_SECONDS }),
        quiet(EffectView::StopTyping),
    ]
}

/// What is done about the outcome of the search for a custom emoji in the
/// referenced message: its image's address is sent to the channel where the
/// mention found ends in `>`, and the triggering message is deleted. Where
/// the search met a word that cannot be asked about, there is no plan.
pub open spec fn customemoji_plan_for(channel_id: u64, found: MentionView) -> Option<
    Seq<StepView>,
> {
    match found {
        MentionView::Unreadable => None,
        MentionView::Absent => Some(seq![delete_command()]),
        MentionView::Found(word) => match identifier_text(word) {
            Some(identifier) => Some(
                seq![
                    call(
                        EffectView::Say { channel_id, text: image_url(identifier) },
                        "Failed to reply with emoji"@,
                    ),
                    delete_command(),
                ],
            ),
            None => Some(seq![delete_command()]),
        },
    }
}

/// The custom-emoji handler: on a message that replies to no other it does
/// nothing; else it looks for a custom emoji in the referenced message.
pub open spec fn customemoji_plan(msg: &InboundMessage) -> Option<Seq<StepView>> {
    if msg.is_reply() {
        customemoji_plan_for(msg.channel_id, first_mention(msg.referenced_text()))
    } else {
        Some(Seq::empty())
    }
}

impl Identities {
    /// The effects of a handler on a message, in the order in which they are
    /// tried.
    pub open spec fn plan_for(self, command: Command, msg: &InboundMessage) -> Seq<StepView> {
        match command {
            Command::Sob => sob_plan(msg.is_reply()),
            Command::Broken => broken_plan(msg.is_reply()),
            Command::Delete => delete_plan(msg.is_reply()),
            Command::Pin => pin_plan(msg.is_reply()),
            Command::Lance => lance_plan(self.custom_emoji_id),
            Command::Type => type_plan(msg.channel_id),
            Command::Fire => fire_plan(msg.is_reply()),
            Command::Sybau => sybau_plan(msg.is_reply()),
        }
    }

    /// All that a message brings about, given its lowercased content: the
    /// plan of the handler that it reaches, and nothing where it reaches none.
    pub open spec fn response(self, msg: &InboundMessage, lowered: Seq<char>) -> Seq<StepView> {
        match self.routed(msg.author_id, msg.content@, lowered) {
            Some(command) => self.plan_for(command, msg),
            None => Seq::empty(),
        }
    }
}

fn call_step(effect: Effect, on_failure: &str) -> (step: Step)
    ensures
        step@ == call(effect@, on_failure@),
{
    Step { effect, on_failure: Some(on_failure.to_owned()), on_success: None }
}

fn quiet_step(effect: Effect) -> (step: Step)
    ensures
        step@ == quiet(effect@),
{
    Step { effect, on_failure: None, on_success: None }
}

fn reaction_steps(
    handler: &Handler,
    msg: &InboundMessage,
    glyph: &str,
    on_failure: &str,
    on_success: Option<&str>,
) -> (plan: Vec<Step>)
    ensures
        plan.deep_view() == reaction_plan(
            msg.is_reply(),
            glyph@,
            on_failure@,
            match on_success {
                Some(text) => Some(text@),
                None => None,
            },
        ),
{
    let mut plan: Vec<Step> = Vec::new();
    if msg.referenced_message.is_some() {
        let noted = match on_success {
            Some(text) => Some(text.to_owned()),
            None => None,
        };
        plan.push(
            Step {
                effect: Effect::React {
                    target: Target::Referenced,
                    reaction: ReactionSpec::Unicode(glyph.to_owned()),
                },
                on_failure: Some(on_failure.to_owned()),
                on_success: noted,
            },
        );
    }
    plan.push(handler.safe_delete());
    plan
}

impl Handler {
    /// The deletion of the triggering message, with which several handlers
    /// end.
    pub fn safe_delete(&self) -> (step: Step)
        ensures
            step@ == delete_command(),
    {
        call_step(Effect::Delete { target: Target::Triggering }, "Failed to delete command message")
    }

    pub fn handle_sob(&self, msg: &InboundMessage) -> (plan: Vec<Step>)
        ensures
            plan.deep_view() == sob_plan(msg.is_reply()),
    {
        reaction_steps(self, msg, "😭", "Failed to add reaction", Some("Added sob reaction"))
    }

    pub fn handle_broken(&self, msg: &InboundMessage) -> (plan: Vec<Step>)
        ensures
            plan.deep_view() == broken_plan(msg.is_reply()),
    {
        reaction_steps(
            self,
            msg,
            "💔",
            "Failed to add reaction",
            Some("Added broken heart reaction"),
        )
    }

    pub fn handle_fire(&self, msg: &InboundMessage) -> (plan: Vec<Step>)
        ensures
            plan.deep_view() == fire_plan(msg.is_reply()),
    {
        reaction_steps(self, msg, "🔥", "Failed to add fire reaction", None)
    }

    pub fn handle_delete(&self, msg: &InboundMessage) -> (plan: Vec<Step>)
        ensures
            plan.deep_view() == delete_plan(msg.is_reply()),
    {
        let mut plan: Vec<Step> = Vec::new();
        if msg.referenced_message.is_some() {
            plan.push(
                call_step(Effect::Delete { target: Target::Referenced }, "Failed to delete message"),
            );
            plan.push(self.safe_delete());
        }
        plan
    }

    pub fn handle_pin(&self, msg: &InboundMessage) -> (plan: Vec<Step>)
        ensures
            plan.deep_view() == pin_plan(msg.is_reply()),
    {
        let mut plan: Vec<Step> = Vec::new();
        if msg.referenced_message.is_some() {
            plan.push(
                call_step(Effect::Pin { target: Target::Referenced }, "Failed to pin message"),
            );
        }
        plan
    }

    pub fn handle_sybau(&self, msg: &InboundMessage) -> (plan: Vec<Step>)
        ensures
            plan.deep_view() == sybau_plan(msg.is_reply()),
    {
        let mut plan: Vec<Step> = Vec::new();
        if msg.referenced_message.is_some() {
            plan.push(
                call_step(
                    Effect::Reply { target: Target::Referenced, text: "yeah sybau".to_owned() },
                    "Failed to send reply",
                ),
            );
        }
        plan
    }

    pub fn handle_lance(&self, msg: &InboundMessage) -> (plan: Vec<Step>)
        ensures
            plan.deep_view() == lance_plan(self@.custom_emoji_id),
    {
        let custom_emoji = ReactionSpec::Custom {
            animated: false,
            id: self.custom_emoji_id(),
            name: Some("lance".to_owned()),
        };
        let mut response = "<:lance:".to_owned();
        response.append(reaction_text(&custom_emoji).as_str());
        response.append(">");
        let mut plan: Vec<Step> = Vec::new();
        plan.push(
            call_step(
                Effect::React { target: Target::Triggering, reaction: custom_emoji },
                "Failed to react",
            ),
        );
        plan.push(
            call_step(
                Effect::Reply { target: Target::Triggering, text: response },
                "Failed to reply",
            ),
        );
        plan
    }

    pub fn handle_type(&self, msg: &InboundMessage) -> (plan: Vec<Step>)
        ensures
            plan.deep_view() == type_plan(msg.channel_id),
    {
        let mut plan: Vec<Step> = Vec::new();
        plan.push(self.safe_delete());
        plan.push(quiet_step(Effect::StartTyping { channel_id: msg.channel_id }));
        plan.push(quiet_step(Effect::Hold { seconds: TYPING_SECONDS }));
        plan.push(quiet_step(Effect::StopTyping));
        plan
    }

    /// The second half of the custom-emoji handler: what is done once the
    /// referenced message was searched.
    pub fn customemoji_steps(&self, channel_id: u64, found: &Mention) -> (plan: Option<Vec<Step>>)
        ensures
            plan.deep_view() == customemoji_plan_for(channel_id, found@),
    {
        match found {
            Mention::Unreadable => None,
            Mention::Absent => {
                let mut plan: Vec<Step> = Vec::new();
                plan.push(self.safe_delete());
                Some(plan)
            },
            Mention::Found(word) => {
                let mut plan: Vec<Step> = Vec::new();
                match emoji_image_url(word.as_str()) {
                    Some(url) => {
                        plan.push(
                            call_step(
                                Effect::Say { channel_id, text: url },
                                "Failed to reply with emoji",
                            ),
                        );
                    },
                    None => {},
                }
                plan.push(self.safe_delete());
                Some(plan)
            },
        }
    }

    /// The custom-emoji handler, which no entry of the command table leads
    /// to. There is no plan where the referenced message holds a word that
    /// cannot be asked about before its first mention.
    pub fn handle_customemoji(&self, msg: &InboundMessage) -> (plan: Option<Vec<Step>>)
        ensures
            plan.deep_view() == customemoji_plan(msg),
    {
        match &msg.referenced_message {
            Some(referenced) => {
                let found = find_mention(referenced.content.as_str());
                self.customemoji_steps(msg.channel_id, &found)
            },
            None => Some(Vec::new()),
        }
    }

    /// The effects of one handler on a message.
    pub fn handle(&self, command: Command, msg: &InboundMessage) -> (plan: Vec<Step>)
        ensures
            plan.deep_view() == self@.plan_for(command, msg),
    {
        match command {
            Command::Sob => self.handle_sob(msg),
            Command::Broken => self.handle_broken(msg),
            Command::Delete => self.handle_delete(msg),
            Command::Pin => self.handle_pin(msg),
            Command::Lance => self.handle_lance(msg),
            Command::Type => self.handle_type(msg),
            Command::Fire => self.handle_fire(msg),
            Command::Sybau => self.handle_sybau(msg),
        }
    }

    /// All that one message event brings about: the effects of the handler
    /// that the message reaches, and none where it reaches no handler.
    pub fn message(&self, msg: &InboundMessage) -> (plan: Vec<Step>)
        ensures
            plan.deep_view() == self@.response(msg, lowercase_of(msg.content@)),
    {
        match self.route(msg) {
            Some(command) => self.handle(command, msg),
            None => Vec::new(),
        }
    }
}

} // verus!
