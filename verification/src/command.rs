//! The fixed table of exact commands.

use vstd::prelude::*;

verus! {

/// A handler that a message can reach.
#[derive(Clone, Copy, Debug, PartialEq, Eq, Structural)]
pub enum Command {
    Sob,
    Broken,
    Delete,
    Pin,
    Lance,
    Type,
    Fire,
    Sybau,
}

/// The handler that the table gives for a content: the whole content has to
/// be the literal, letter for letter.
pub open spec fn table_entry(content: Seq<char>) -> Option<Command> {
    if content == ",sob"@ {
        Some(Command::Sob)
    } else if content == ",broke"@ {
        Some(Command::Broken)
    } else if content == ",delete"@ {
        Some(Command::Delete)
    } else if content == ",pin"@ {
        Some(Command::Pin)
    } else if content == ",get"@ {
        Some(Command::Lance)
    } else if content == ",type"@ {
        Some(Command::Type)
    } else if content == "fire"@ {
        Some(Command::Fire)
    } else if content == "sybau"@ {
        Some(Command::Sybau)
    } else {
        None
    }
}

impl Command {
    /// Looks a content up in the command table.
    pub fn lookup(content: &str) -> (found: Option<Command>)
        ensures
            found == table_entry(content@),
    {
        if content.eq(",sob") {
            Some(Command::Sob)
        } else if content.eq(",broke") {
            Some(Command::Broken)
        } else if content.eq(",delete") {
            Some(Command::Delete)
        } else if content.eq(",pin") {
            Some(Command::Pin)
        } else if content.eq(",get") {
            Some(Command::Lance)
        } else if content.eq(",type") {
            Some(Command::Type)
        } else if content.eq("fire") {
            Some(Command::Fire)
        } else if content.eq("sybau") {
            Some(Command::Sybau)
        } else {
            None
        }
    }

    /// The literal that the table holds for a handler.
    pub open spec fn literal(self) -> Seq<char> {
        match self {
            Command::Sob => ",sob"@,
            Command::Broken => ",broke"@,
            Command::Delete => ",delete"@,
            Command::Pin => ",pin"@,
            Command::Lance => ",get"@,
            Command::Type => ",type"@,
            Command::Fire => "fire"@,
            Command::Sybau => "sybau"@,
        }
    }
}

/// The table holds one literal for each handler, and no literal twice: each
/// literal leads to its own handler, and a content that leads to a handler is
/// that handler's literal.
pub proof fn table_is_one_to_one(command: Command, content: Seq<char>)
    ensures
        table_entry(command.literal()) == Some(command),
        table_entry(content) == Some(command) <==> content == command.literal(),
{
    reveal_strlit(",sob");
    reveal_strlit(",broke");
    reveal_strlit(",delete");
    reveal_strlit(",pin");
    reveal_strlit(",get");
    reveal_strlit(",type");
    reveal_strlit("fire");
    reveal_strlit("sybau");
    assert(",sob"@.len() == 4 && ",sob"@[1] == 's');
    assert(",pin"@.len() == 4 && ",pin"@[1] == 'p');
    assert(",get"@.len() == 4 && ",get"@[1] == 'g');
    assert("fire"@.len() == 4 && "fire"@[1] == 'i');
    assert(",type"@.len() == 5 && ",type"@[0] == ',');
    assert("sybau"@.len() == 5 && "sybau"@[0] == 's');
    assert(",broke"@.len() == 6);
    assert(",delete"@.len() == 7);
}

} // verus!
