//! Custom emoji: how a reaction is written out as text, and how a mention of
//! a custom emoji is found in a text and turned into the address of its image.

use serenity::model::channel::ReactionType;
use serenity::model::id::EmojiId;
use serenity::utils::parse_emoji;
use vstd::prelude::*;
use vstd::string::{StrSliceExecFns, StringExecFns};
use vstd::utf8::{encode_utf8, is_char_boundary};

use crate::model::{ReactionSpec, ReactionView};
use crate::text::{chars_of, occurs_at};
use crate::words::{split_words, words};

verus! {

/// The decimal digit for a value below ten.
pub open spec fn digit(value: nat) -> char
    recommends
        value < 10,
{
    "0123456789"@[value as int]
}

/// A number in decimal: no sign, no leading zero.
pub open spec fn decimal(value: nat) -> Seq<char>
    decreases value,
{
    if value < 10 {
        seq![digit(value)]
    } else {
        decimal(value / 10).push(digit(value % 10))
    }
}

/// The text that stands for a reaction in a message: a glyph stands for
/// itself, a custom emoji is written `<:name:id>`, with `a` before the first
/// colon where it is animated and with nothing for a name that is not given.
pub open spec fn mention_of(reaction: ReactionView) -> Seq<char> {
    match reaction {
        ReactionView::Unicode(glyph) => glyph,
        ReactionView::Custom { animated, id, name } => {
            let opening = if animated {
                "<a:"@
            } else {
                "<:"@
            };
            let shown = match name {
                Some(text) => text,
                None => Seq::empty(),
            };
            opening + shown + seq![':'] + decimal(id as nat) + seq!['>']
        },
    }
}

/// Has serenity write a reaction out, through the `Display` of its
/// `ReactionType`. The contract claims what that impl prints: the glyph itself;
/// for a custom emoji `<:` or `<a:`, the name if there is one, a colon, the
/// identifier in decimal and `>`. serenity's identifiers cannot be zero, so a
/// custom emoji with identifier zero is left out.
#[verifier::external_body]
pub(crate) fn reaction_text(reaction: &ReactionSpec) -> (text: String)
    requires
        reaction@.wf(),
    ensures
        text@ == mention_of(reaction@),
{
    let outside = match reaction {
        ReactionSpec::Unicode(glyph) => ReactionType::Unicode(glyph.clone()),
        ReactionSpec::Custom { animated, id, name } => ReactionType::Custom {
            animated: *animated,
            id: EmojiId::new(*id),
            name: name.clone(),
        },
    };
    outside.to_string()
}

/// The position of the first colon of `word` at or behind `from`; the length
/// of the word where there is none.
pub open spec fn colon_from(word: Seq<char>, from: int) -> int
    decreases word.len() - from,
{
    if from >= word.len() || word[from] == ':' {
        from
    } else {
        colon_from(word, from + 1)
    }
}

/// The shape without which a word is no mention at first sight: 6 to 56 bytes
/// of UTF-8, `<:` or `<a:` in front, `>` at the end.
pub open spec fn has_mention_shape(word: Seq<char>) -> bool {
    &&& 6 <= encode_utf8(word).len() <= 56
    &&& occurs_at(word, "<:"@, 0) || occurs_at(word, "<a:"@, 0)
    &&& word.last() == '>'
}

/// Whether a word of that shape can be taken apart at the byte offsets where
/// the name and the identifier are looked for: offset 3, and the offset that
/// is one more than the number of characters before the first colon behind
/// the opening, where there is such a colon. Each has to fall between two
/// characters. A name of plain ASCII makes it so.
pub open spec fn splits_between_chars(word: Seq<char>) -> bool {
    let opening: int = if occurs_at(word, "<a:"@, 0) {
        3
    } else {
        2
    };
    let colon = colon_from(word, opening);
    &&& is_char_boundary(encode_utf8(word), 3)
    &&& colon < word.len() ==> is_char_boundary(encode_utf8(word), colon + 1)
}

/// The words that can be asked about: all but those of a mention's shape that
/// cannot be taken apart between characters.
pub open spec fn can_be_parsed(word: Seq<char>) -> bool {
    has_mention_shape(word) ==> splits_between_chars(word)
}

/// Whether serenity reads a word as the mention of a custom emoji, which
/// depends on nothing but the word.
pub uninterp spec fn is_emoji_mention(word: Seq<char>) -> bool;

/// Calls serenity's `utils::parse_emoji` and says whether it found a custom
/// emoji. The contract only names the result. That function looks no further
/// into a word that has not a mention's shape. A word of that shape it slices
/// by bytes, first up to offset 3, then from one past the count of characters
/// before the name's closing colon, and it panics where such an offset falls
/// inside a character: `requires` leaves exactly those words out.
#[verifier::external_body]
fn parses_as_emoji(word: &str) -> (parsed: bool)
    requires
        can_be_parsed(word@),
    ensures
        parsed == is_emoji_mention(word@),
{
    parse_emoji(word).is_some()
}

proof fn colon_from_found(word: Seq<char>, from: int, at: int)
    requires
        0 <= from <= at <= word.len(),
        forall|k: int| from <= k < at ==> word[k] != ':',
        at < word.len() ==> word[at] == ':',
    ensures
        colon_from(word, from) == at,
    decreases at - from,
{
    if from < at {
        colon_from_found(word, from + 1, at);
    }
}

/// Whether a word can be asked about.
pub fn word_can_be_parsed(word: &str) -> (clean: bool)
    ensures
        clean == can_be_parsed(word@),
{
    let size = word.as_bytes().len();
    if size < 6 || size > 56 {
        return true;
    }
    let chars = chars_of(word);
    let n = chars.len();
    proof {
        reveal_strlit("<:");
        reveal_strlit("<a:");
        if n >= 2 {
            assert(occurs_at(word@, "<:"@, 0) <==> word@[0] == '<' && word@[1] == ':') by {
                if word@[0] == '<' && word@[1] == ':' {
                    assert(word@.subrange(0, 2) =~= "<:"@);
                } else {
                    assert(word@.subrange(0, 2)[0] == word@[0]);
                    assert(word@.subrange(0, 2)[1] == word@[1]);
                }
            }
        }
        if n >= 3 {
            assert(occurs_at(word@, "<a:"@, 0) <==> word@[0] == '<' && word@[1] == 'a' && word@[2]
                == ':') by {
                if word@[0] == '<' && word@[1] == 'a' && word@[2] == ':' {
                    assert(word@.subrange(0, 3) =~= "<a:"@);
                } else {
                    assert(word@.subrange(0, 3)[0] == word@[0]);
                    assert(word@.subrange(0, 3)[1] == word@[1]);
                    assert(word@.subrange(0, 3)[2] == word@[2]);
                }
            }
        }
    }
    let plain = n >= 2 && chars[0] == '<' && chars[1] == ':';
    let animated = n >= 3 && chars[0] == '<' && chars[1] == 'a' && chars[2] == ':';
    if !(plain || animated) {
        return true;
    }
    if chars[n - 1] != '>' {
        return true;
    }
    if !word.is_char_boundary(3) {
        return false;
    }
    let opening: usize = if animated {
        3
    } else {
        2
    };
    let mut at: usize = opening;
    while at < n && chars[at] != ':'
        invariant
            chars@ == word@,
            n == chars.len(),
            opening <= at <= n,
            forall|k: int| opening <= k < at ==> word@[k] != ':',
        decreases n - at,
    {
        at += 1;
    }
    proof {
        colon_from_found(word@, opening as int, at as int);
    }
    if at < n {
        word.is_char_boundary(at + 1)
    } else {
        true
    }
}

/// What the search for a mention in a row of words comes to.
#[derive(Clone, Debug, PartialEq, Eq)]
pub enum Mention {
    /// The first word that is a mention.
    Found(String),
    /// No word is a mention.
    Absent,
    /// The search met a word that cannot be asked about before it met a
    /// mention.
    Unreadable,
}

/// What a `Mention` stands for.
pub enum MentionView {
    Found(Seq<char>),
    Absent,
    Unreadable,
}

impl View for Mention {
    type V = MentionView;

    open spec fn view(&self) -> MentionView {
        match self {
            Mention::Found(word) => MentionView::Found(word@),
            Mention::Absent => MentionView::Absent,
            Mention::Unreadable => MentionView::Unreadable,
        }
    }
}

/// The search from word `from` on: the words are asked one after the other,
/// and the first that is a mention, or that cannot be asked about, ends it.
pub open spec fn mention_from(row: Seq<Seq<char>>, from: int) -> MentionView
    decreases row.len() - from,
{
    if from < 0 || from >= row.len() {
        MentionView::Absent
    } else if !can_be_parsed(row[from]) {
        MentionView::Unreadable
    } else if is_emoji_mention(row[from]) {
        MentionView::Found(row[from])
    } else {
        mention_from(row, from + 1)
    }
}

/// The first mention of a custom emoji among the words of a text.
pub open spec fn first_mention(text: Seq<char>) -> MentionView {
    mention_from(words(text), 0)
}

/// Looks for the first mention of a custom emoji among the words of a text.
pub fn find_mention(text: &str) -> (found: Mention)
    ensures
        found@ == first_mention(text@),
{
    let row = split_words(text);
    let mut at: usize = 0;
    while at < row.len()
        invariant
            row.deep_view() == words(text@),
            at <= row.len(),
            first_mention(text@) == mention_from(row.deep_view(), at as int),
        decreases row.len() - at,
    {
        let word = row[at].as_str();
        assert(row.deep_view()[at as int] == word@);
        if !word_can_be_parsed(word) {
            return Mention::Unreadable;
        }
        if parses_as_emoji(word) {
            return Mention::Found(word.to_owned());
        }
        at += 1;
    }
    Mention::Absent
}

/// What stands behind the last colon of a word; the whole word where it has
/// no colon.
pub open spec fn after_last_colon(word: Seq<char>) -> Seq<char>
    decreases word.len(),
{
    if word.len() == 0 {
        word
    } else if word.last() == ':' {
        Seq::empty()
    } else {
        after_last_colon(word.drop_last()).push(word.last())
    }
}

/// The identifier as a mention writes it: what stands between the last colon
/// and a closing `>`. A word that does not end in `>` has none.
pub open spec fn identifier_text(word: Seq<char>) -> Option<Seq<char>> {
    let tail = after_last_colon(word);
    if tail.len() > 0 && tail.last() == '>' {
        Some(tail.drop_last())
    } else {
        None
    }
}

/// The address of the image of the custom emoji with that identifier.
pub open spec fn image_url(identifier: Seq<char>) -> Seq<char> {
    "https://cdn.discordapp.com/emojis/"@ + identifier + ".png"@
}

proof fn after_last_colon_is_suffix(word: Seq<char>, from: int)
    requires
        0 <= from <= word.len(),
        forall|k: int| from <= k < word.len() ==> word[k] != ':',
        from > 0 ==> word[from - 1] == ':',
    ensures
        after_last_colon(word) == word.subrange(from, word.len() as int),
    decreases word.len(),
{
    if word.len() == 0 {
        assert(word.subrange(0, 0) =~= word);
    } else if from == word.len() {
        assert(word.subrange(from, word.len() as int) =~= Seq::<char>::empty());
    } else {
        let shorter = word.drop_last();
        after_last_colon_is_suffix(shorter, from);
        assert(shorter.subrange(from, shorter.len() as int).push(word.last()) =~= word.subrange(
            from,
            word.len() as int,
        ));
    }
}

/// The address of the image that a mention stands for; none for a word that
/// does not end in `>`.
pub fn emoji_image_url(word: &str) -> (url: Option<String>)
    ensures
        url.deep_view() == match identifier_text(word@) {
            Some(identifier) => Some(image_url(identifier)),
            None => None,
        },
{
    let chars = chars_of(word);
    let n = chars.len();
    let mut from: usize = n;
    while from > 0 && chars[from - 1] != ':'
        invariant
            chars@ == word@,
            n == chars.len(),
            from <= n,
            forall|k: int| from <= k < n ==> word@[k] != ':',
        decreases from,
    {
        from -= 1;
    }
    proof {
        after_last_colon_is_suffix(word@, from as int);
    }
    if from < n && chars[n - 1] == '>' {
        let identifier = word.substring_char(from, n - 1);
        assert(identifier@ =~= word@.subrange(from as int, n as int).drop_last());
        let mut url = "https://cdn.discordapp.com/emojis/".to_owned();
        url.append(identifier);
        url.append(".png");
        Some(url)
    } else {
        None
    }
}

} // verus!
