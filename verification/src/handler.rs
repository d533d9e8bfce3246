//! The dispatcher: who may command, and which handler a message reaches.

use vstd::prelude::*;

use crate::command::{table_entry, Command};
use crate::model::InboundMessage;
use crate::text::{contains, contains_text, lowercase_of, to_lowercase};

verus! {

/// The three identities that a responder is set up with.
#[derive(Clone, Copy, Debug, PartialEq, Eq)]
pub struct Identities {
    /// The one user whose exact commands are obeyed.
    pub allowed_id: u64,
    /// The bot's own user.
    pub bot_id: u64,
    /// The custom emoji that the lance handler reacts with.
    pub custom_emoji_id: u64,
}

impl Identities {
    /// Platform identifiers are never zero.
    pub open spec fn wf(self) -> bool {
        self.allowed_id != 0 && self.bot_id != 0 && self.custom_emoji_id != 0
    }

    /// The allow-set holds the allowed user and nobody else.
    pub open spec fn authorizes(self, author_id: u64) -> bool {
        author_id == self.allowed_id
    }

    /// The first tier: an exact command of an authorized sender.
    pub open spec fn exact_tier(self, author_id: u64, content: Seq<char>) -> Option<Command> {
        if self.authorizes(author_id) {
            table_entry(content)
        } else {
            None
        }
    }

    /// The fallback rule, on the lowercased content: it holds `lance`, and the
    /// author is not the bot itself.
    pub open spec fn fallback_fires(self, author_id: u64, lowered: Seq<char>) -> bool {
        contains(lowered, "lance"@) && author_id != self.bot_id
    }

    /// The handler that a message reaches, if any: the exact command where
    /// the first tier gives one, else the lance handler where the fallback
    /// rule fires.
    pub open spec fn routed(self, author_id: u64, content: Seq<char>, lowered: Seq<char>) -> Option<
        Command,
    > {
        if self.exact_tier(author_id, content) is Some {
            self.exact_tier(author_id, content)
        } else if self.fallback_fires(author_id, lowered) {
            Some(Command::Lance)
        } else {
            None
        }
    }
}

/// The responder: its identities, fixed when it is made.
#[derive(Clone, Copy, Debug, PartialEq, Eq)]
pub struct Handler {
    ids: Identities,
}

impl View for Handler {
    type V = Identities;

    closed spec fn view(&self) -> Identities {
        self.ids
    }
}

impl Handler {
    #[verifier::type_invariant]
    spec fn inv(self) -> bool {
        self.ids.wf()
    }

    /// A responder for the given identities; none where one of them is zero.
    pub fn new(allowed_id: u64, bot_id: u64, custom_emoji_id: u64) -> (made: Option<Handler>)
        ensures
            made is Some <==> allowed_id != 0 && bot_id != 0 && custom_emoji_id != 0,
            made matches Some(handler) ==> handler@ == (Identities {
                allowed_id,
                bot_id,
                custom_emoji_id,
            }),
    {
        if allowed_id == 0 || bot_id == 0 || custom_emoji_id == 0 {
            None
        } else {
            Some(Handler { ids: Identities { allowed_id, bot_id, custom_emoji_id } })
        }
    }

    /// The allowed user.
    pub fn allowed_id(&self) -> (id: u64)
        ensures
            id == self@.allowed_id,
            id != 0,
    {
        proof {
            use_type_invariant(self);
        }
        self.ids.allowed_id
    }

    /// The bot's own user.
    pub fn bot_id(&self) -> (id: u64)
        ensures
            id == self@.bot_id,
            id != 0,
    {
        proof {
            use_type_invariant(self);
        }
        self.ids.bot_id
    }

    /// The custom emoji of the lance handler.
    pub fn custom_emoji_id(&self) -> (id: u64)
        ensures
            id == self@.custom_emoji_id,
            id != 0,
    {
        proof {
            use_type_invariant(self);
        }
        self.ids.custom_emoji_id
    }

    /// The first tier of the router: the table entry for the content, for the
    /// allowed sender only.
    pub fn exact_command(&self, author_id: u64, content: &str) -> (found: Option<Command>)
        ensures
            found == self@.exact_tier(author_id, content@),
    {
        if author_id == self.ids.allowed_id {
            Command::lookup(content)
        } else {
            None
        }
    }

    /// The second tier of the router, on a content that was lowercased
    /// already.
    pub fn fallback_applies(&self, author_id: u64, lowered: &str) -> (fires: bool)
        ensures
            fires == self@.fallback_fires(author_id, lowered@),
    {
        contains_text(lowered, "lance") && author_id != self.ids.bot_id
    }

    /// The handler that a message reaches, if any.
    pub fn route(&self, msg: &InboundMessage) -> (found: Option<Command>)
        ensures
            found == self@.routed(msg.author_id, msg.content@, lowercase_of(msg.content@)),
    {
        match self.exact_command(msg.author_id, msg.content.as_str()) {
            Some(command) => Some(command),
            None => {
                let lowered = to_lowercase(msg.content.as_str());
                if self.fallback_applies(msg.author_id, lowered.as_str()) {
                    Some(Command::Lance)
                } else {
                    None
                }
            },
        }
    }
}

} // verus!
