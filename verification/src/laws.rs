//! What holds of the router and of the handlers on every message.

use vstd::prelude::*;

use crate::actions::delete_command;
use crate::command::{table_entry, Command};
use crate::handler::Identities;
use crate::model::{EffectView, InboundMessage, StepView, Target};
use crate::run::{after_attempt, after_attempts, Outcome};
use crate::text::contains;

verus! {

/// A sender who is not the allowed user reaches no exact command, whatever
/// the content: such a message reaches the lance handler where the fallback
/// rule fires, and no handler at all where it does not.
pub proof fn stranger_reaches_fallback_only(
    ids: Identities,
    author_id: u64,
    content: Seq<char>,
    lowered: Seq<char>,
)
    requires
        author_id != ids.allowed_id,
    ensures
        ids.exact_tier(author_id, content) is None,
        ids.fallback_fires(author_id, lowered) ==> ids.routed(author_id, content, lowered) == Some(
            Command::Lance,
        ),
        !ids.fallback_fires(author_id, lowered) ==> ids.routed(author_id, content, lowered)
            is None,
{
}

/// A message of the allowed user whose content is a table entry reaches the
/// handler that the table gives, and its effects are that handler's and no
/// other's: the fallback rule has no say then.
pub proof fn allowed_sender_reaches_table_entry(
    ids: Identities,
    msg: InboundMessage,
    lowered: Seq<char>,
    command: Command,
)
    requires
        msg.author_id == ids.allowed_id,
        table_entry(msg.content@) == Some(command),
    ensures
        ids.routed(msg.author_id, msg.content@, lowered) == Some(command),
        ids.response(&msg, lowered) == ids.plan_for(command, &msg),
{
}

/// A message whose lowercased content holds `lance`, of any sender but the
/// bot itself, reaches the lance handler unless the first tier has taken it
/// as an exact command of the allowed user.
pub proof fn lance_fallback_catches_the_rest(
    ids: Identities,
    author_id: u64,
    content: Seq<char>,
    lowered: Seq<char>,
)
    requires
        author_id != ids.bot_id,
        contains(lowered, "lance"@),
        !(author_id == ids.allowed_id && table_entry(content) is Some),
    ensures
        ids.routed(author_id, content, lowered) == Some(Command::Lance),
{
}

/// The fallback rule never fires on a message of the bot itself, whatever it
/// holds: such a message reaches a handler only as an exact command.
pub proof fn bot_never_triggers_fallback(ids: Identities, content: Seq<char>, lowered: Seq<char>)
    ensures
        !ids.fallback_fires(ids.bot_id, lowered),
        ids.routed(ids.bot_id, content, lowered) == ids.exact_tier(ids.bot_id, content),
{
}

/// The delete, pin and sybau handlers do nothing at all on a message that
/// replies to no other.
pub proof fn reference_handlers_need_a_reference(
    ids: Identities,
    command: Command,
    msg: InboundMessage,
)
    requires
        command is Delete || command is Pin || command is Sybau,
        !msg.is_reply(),
    ensures
        ids.plan_for(command, &msg) == Seq::<StepView>::empty(),
{
}

/// `,delete`, `,pin` and `sybau` of the allowed user bring nothing about
/// where the message replies to no other.
pub proof fn reference_commands_without_reference_are_no_ops(
    ids: Identities,
    msg: InboundMessage,
    lowered: Seq<char>,
)
    requires
        msg.author_id == ids.allowed_id,
        msg.content@ == ",delete"@ || msg.content@ == ",pin"@ || msg.content@ == "sybau"@,
        !msg.is_reply(),
    ensures
        ids.response(&msg, lowered) == Seq::<StepView>::empty(),
{
    crate::command::table_is_one_to_one(Command::Delete, msg.content@);
    crate::command::table_is_one_to_one(Command::Pin, msg.content@);
    crate::command::table_is_one_to_one(Command::Sybau, msg.content@);
}

/// The sob, broken and fire handlers end with the deletion of the triggering
/// message. On a reply the reaction on the referenced message comes first and
/// the deletion is what is tried next, whether the reaction failed or not.
pub proof fn reaction_comes_before_deletion(
    ids: Identities,
    command: Command,
    msg: InboundMessage,
    outcome: Outcome,
)
    requires
        command is Sob || command is Broken || command is Fire,
    ensures
        ({
            let plan = ids.plan_for(command, &msg);
            &&& plan.last() == delete_command()
            &&& !msg.is_reply() ==> plan.len() == 1
            &&& msg.is_reply() ==> {
                &&& plan.len() == 2
                &&& plan[0].effect is React
                &&& plan[0].effect.target() == Some(Target::Referenced)
                &&& after_attempt(plan, outcome) == seq![delete_command()]
            }
        }),
{
}

/// No outcome cuts a plan short: once as many steps were tried as there are
/// outcomes, failed or not, all the steps behind them are still to be tried,
/// in their order.
pub proof fn no_outcome_interrupts_a_plan(plan: Seq<StepView>, outcomes: Seq<Outcome>)
    requires
        outcomes.len() <= plan.len(),
    ensures
        after_attempts(plan, outcomes) == plan.skip(outcomes.len() as int),
    decreases outcomes.len(),
{
    if outcomes.len() == 0 {
        assert(plan.skip(0) =~= plan);
    } else {
        no_outcome_interrupts_a_plan(plan.drop_first(), outcomes.drop_first());
        assert(plan.drop_first().skip(outcomes.len() - 1) =~= plan.skip(outcomes.len() as int));
    }
}

/// No handler makes more than two calls into the platform, and they come
/// first in its plan.
pub proof fn handlers_make_at_most_two_calls(ids: Identities, command: Command, msg: InboundMessage)
    ensures
        forall|i: int|
            2 <= i < ids.plan_for(command, &msg).len() ==> !(#[trigger] ids.plan_for(
                command,
                &msg,
            )[i]).effect.is_platform_call(),
{
}

/// An effect acts on the referenced message only where there is one.
pub proof fn effects_on_referenced_need_a_reply(
    ids: Identities,
    command: Command,
    msg: InboundMessage,
    i: int,
)
    requires
        0 <= i < ids.plan_for(command, &msg).len(),
        ids.plan_for(command, &msg)[i].effect.target() == Some(Target::Referenced),
    ensures
        msg.is_reply(),
{
}

/// A handler that shows the typing indicator takes it away again, and holds
/// it in between.
pub proof fn typing_indicator_is_released(ids: Identities, command: Command, msg: InboundMessage, i: int)
    requires
        0 <= i < ids.plan_for(command, &msg).len(),
        ids.plan_for(command, &msg)[i].effect is StartTyping,
    ensures
        i + 2 < ids.plan_for(command, &msg).len(),
        ids.plan_for(command, &msg)[i + 1].effect is Hold,
        ids.plan_for(command, &msg)[i + 2].effect == EffectView::StopTyping,
{
}

} // verus!
