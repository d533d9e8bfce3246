use chat_responder::actions::TYPING_SECONDS;
use chat_responder::command::Command;
use chat_responder::handler::Handler;
use chat_responder::model::{
    Effect, InboundMessage, ReactionSpec, ReferencedMessage, Step, Target,
};

const ALLOWED: u64 = 1001;
const BOT: u64 = 2002;
const EMOJI: u64 = 3003;
const STRANGER: u64 = 4004;
const CHANNEL: u64 = 77;

fn handler() -> Handler {
    Handler::new(ALLOWED, BOT, EMOJI).expect("identities are not zero")
}

fn plain(author_id: u64, content: &str) -> InboundMessage {
    InboundMessage {
        author_id,
        channel_id: CHANNEL,
        content: content.to_string(),
        referenced_message: None,
    }
}

fn reply(author_id: u64, content: &str, referenced: &str) -> InboundMessage {
    InboundMessage {
        author_id,
        channel_id: CHANNEL,
        content: content.to_string(),
        referenced_message: Some(ReferencedMessage { content: referenced.to_string() }),
    }
}

fn call(effect: Effect, on_failure: &str) -> Step {
    Step { effect, on_failure: Some(on_failure.to_string()), on_success: None }
}

fn quiet(effect: Effect) -> Step {
    Step { effect, on_failure: None, on_success: None }
}

fn delete_command() -> Step {
    call(Effect::Delete { target: Target::Triggering }, "Failed to delete command message")
}

fn react_referenced(glyph: &str, on_failure: &str, on_success: Option<&str>) -> Step {
    Step {
        effect: Effect::React {
            target: Target::Referenced,
            reaction: ReactionSpec::Unicode(glyph.to_string()),
        },
        on_failure: Some(on_failure.to_string()),
        on_success: on_success.map(|line| line.to_string()),
    }
}

fn effects(plan: &[Step]) -> Vec<Effect> {
    plan.iter().map(|step| step.effect.clone()).collect()
}

#[test]
fn sob_on_a_reply_reacts_then_deletes() {
    let plan = handler().message(&reply(ALLOWED, ",sob", "M"));
    assert_eq!(
        plan,
        vec![
            react_referenced("😭", "Failed to add reaction", Some("Added sob reaction")),
            delete_command(),
        ]
    );
    assert_eq!(
        effects(&plan),
        vec![
            Effect::React {
                target: Target::Referenced,
                reaction: ReactionSpec::Unicode("\u{1F62D}".to_string()),
            },
            Effect::Delete { target: Target::Triggering },
        ]
    );
}

#[test]
fn sob_without_reference_still_deletes() {
    assert_eq!(handler().message(&plain(ALLOWED, ",sob")), vec![delete_command()]);
    assert_eq!(handler().handle_sob(&plain(ALLOWED, ",sob")), vec![delete_command()]);
}

#[test]
fn broken_on_a_reply_reacts_then_deletes() {
    assert_eq!(
        handler().message(&reply(ALLOWED, ",broke", "M")),
        vec![
            react_referenced("💔", "Failed to add reaction", Some("Added broken heart reaction")),
            delete_command(),
        ]
    );
    assert_eq!(handler().handle_broken(&plain(ALLOWED, ",broke")), vec![delete_command()]);
}

#[test]
fn fire_on_a_reply_reacts_then_deletes() {
    assert_eq!(
        handler().message(&reply(ALLOWED, "fire", "M")),
        vec![react_referenced("🔥", "Failed to add fire reaction", None), delete_command()]
    );
    assert_eq!(handler().handle_fire(&plain(ALLOWED, "fire")), vec![delete_command()]);
}

#[test]
fn delete_on_a_reply_deletes_both() {
    assert_eq!(
        handler().message(&reply(ALLOWED, ",delete", "M")),
        vec![
            call(Effect::Delete { target: Target::Referenced }, "Failed to delete message"),
            delete_command(),
        ]
    );
}

#[test]
fn pin_on_a_reply_pins_the_referenced_message() {
    assert_eq!(
        handler().message(&reply(ALLOWED, ",pin", "M")),
        vec![call(Effect::Pin { target: Target::Referenced }, "Failed to pin message")]
    );
}

#[test]
fn sybau_on_a_reply_answers_the_referenced_message() {
    assert_eq!(
        handler().message(&reply(ALLOWED, "sybau", "M")),
        vec![call(
            Effect::Reply { target: Target::Referenced, text: "yeah sybau".to_string() },
            "Failed to send reply",
        )]
    );
}

#[test]
fn delete_pin_and_sybau_are_no_ops_without_reference() {
    let h = handler();
    for content in [",delete", ",pin", "sybau"] {
        assert!(h.message(&plain(ALLOWED, content)).is_empty(), "{content}");
    }
    assert!(h.handle_delete(&plain(ALLOWED, ",delete")).is_empty());
    assert!(h.handle_pin(&plain(ALLOWED, ",pin")).is_empty());
    assert!(h.handle_sybau(&plain(ALLOWED, "sybau")).is_empty());
}

fn lance_steps(id: u64) -> Vec<Step> {
    vec![
        call(
            Effect::React {
                target: Target::Triggering,
                reaction: ReactionSpec::Custom {
                    animated: false,
                    id,
                    name: Some("lance".to_string()),
                },
            },
            "Failed to react",
        ),
        call(
            Effect::Reply { target: Target::Triggering, text: format!("<:lance:<:lance:{id}>>") },
            "Failed to reply",
        ),
    ]
}

#[test]
fn get_reacts_with_the_custom_emoji_and_replies() {
    let plan = handler().message(&plain(ALLOWED, ",get"));
    assert_eq!(plan, lance_steps(EMOJI));
    match &plan[1].effect {
        Effect::Reply { text, .. } => assert_eq!(text, "<:lance:<:lance:3003>>"),
        other => panic!("not a reply: {other:?}"),
    }
}

#[test]
fn any_message_with_lance_gets_the_same_plan() {
    let h = handler();
    assert_eq!(h.message(&plain(ALLOWED, "where is Lance?")), lance_steps(EMOJI));
    assert_eq!(h.message(&plain(STRANGER, "I love lance")), lance_steps(EMOJI));
    assert_eq!(h.message(&reply(STRANGER, "LANCE!", "M")), lance_steps(EMOJI));
}

#[test]
fn lance_writes_the_identifier_in_decimal() {
    for id in [1u64, 9, 10, 99, 100, 302516740095606785, u64::MAX] {
        let h = Handler::new(ALLOWED, BOT, id).unwrap();
        assert_eq!(h.handle_lance(&plain(ALLOWED, ",get")), lance_steps(id));
    }
    let h = Handler::new(ALLOWED, BOT, u64::MAX).unwrap();
    match &h.handle_lance(&plain(ALLOWED, ",get"))[1].effect {
        Effect::Reply { text, .. } => assert_eq!(text, "<:lance:<:lance:18446744073709551615>>"),
        other => panic!("not a reply: {other:?}"),
    }
}

#[test]
fn type_deletes_then_holds_the_typing_indicator() {
    assert_eq!(TYPING_SECONDS, 20);
    let plan = handler().message(&plain(ALLOWED, ",type"));
    assert_eq!(
        plan,
        vec![
            delete_command(),
            quiet(Effect::StartTyping { channel_id: CHANNEL }),
            quiet(Effect::Hold { seconds: 20 }),
            quiet(Effect::StopTyping),
        ]
    );
    assert!(!effects(&plan)
        .iter()
        .any(|e| matches!(e, Effect::Reply { .. } | Effect::Say { .. })));
}

#[test]
fn stranger_sob_is_ignored() {
    let h = handler();
    assert!(h.message(&reply(STRANGER, ",sob", "M")).is_empty());
    assert!(h.message(&plain(STRANGER, ",sob")).is_empty());
}

#[test]
fn handle_agrees_with_the_named_handlers() {
    let h = handler();
    for msg in [plain(ALLOWED, "x"), reply(ALLOWED, "x", "M")] {
        assert_eq!(h.handle(Command::Sob, &msg), h.handle_sob(&msg));
        assert_eq!(h.handle(Command::Broken, &msg), h.handle_broken(&msg));
        assert_eq!(h.handle(Command::Delete, &msg), h.handle_delete(&msg));
        assert_eq!(h.handle(Command::Pin, &msg), h.handle_pin(&msg));
        assert_eq!(h.handle(Command::Lance, &msg), h.handle_lance(&msg));
        assert_eq!(h.handle(Command::Type, &msg), h.handle_type(&msg));
        assert_eq!(h.handle(Command::Fire, &msg), h.handle_fire(&msg));
        assert_eq!(h.handle(Command::Sybau, &msg), h.handle_sybau(&msg));
    }
}

#[test]
fn no_plan_makes_more_than_two_platform_calls() {
    let h = handler();
    let commands = [
        Command::Sob, Command::Broken, Command::Delete, Command::Pin, Command::Lance,
        Command::Type, Command::Fire, Command::Sybau,
    ];
    for msg in [plain(ALLOWED, "x"), reply(ALLOWED, "x", "M")] {
        for command in commands {
            let calls = h
                .handle(command, &msg)
                .iter()
                .filter(|s| {
                    !matches!(
                        s.effect,
                        Effect::StartTyping { .. } | Effect::Hold { .. } | Effect::StopTyping
                    )
                })
                .count();
            assert!(calls <= 2, "{command:?}");
        }
    }
}

#[test]
fn referenced_target_only_on_replies() {
    let h = handler();
    let commands = [
        Command::Sob, Command::Broken, Command::Delete, Command::Pin, Command::Lance,
        Command::Type, Command::Fire, Command::Sybau,
    ];
    for command in commands {
        for step in h.handle(command, &plain(ALLOWED, "x")) {
            let on_referenced = matches!(
                step.effect,
                Effect::React { target: Target::Referenced, .. }
                    | Effect::Reply { target: Target::Referenced, .. }
                    | Effect::Delete { target: Target::Referenced }
                    | Effect::Pin { target: Target::Referenced }
            );
            assert!(!on_referenced, "{command:?}");
        }
    }
}

#[test]
fn safe_delete_is_the_deletion_of_the_command() {
    assert_eq!(handler().safe_delete(), delete_command());
}
