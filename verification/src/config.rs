//! Setting a responder up from the texts that its three identities are
//! configured as.

use vstd::prelude::*;
use vstd::string::StringExecFns;

use crate::handler::{Handler, Identities};
use crate::text::chars_of;

verus! {

/// One of the three settings that hold an identity.
#[derive(Clone, Copy, Debug, PartialEq, Eq, Structural)]
pub enum Setting {
    UserId,
    BotId,
    CustomEmoji,
}

/// Why no responder could be set up.
#[derive(Clone, Copy, Debug, PartialEq, Eq, Structural)]
pub enum ConfigError {
    /// The setting has no value.
    Missing(Setting),
    /// The value is no number that fits 64 bits.
    NotANumber(Setting),
    /// The value is zero, which is no identifier.
    Zero(Setting),
}

/// All characters are decimal digits, and there is at least one.
pub open spec fn is_digits(text: Seq<char>) -> bool {
    &&& text.len() > 0
    &&& forall|i: int| 0 <= i < text.len() ==> '0' <= #[trigger] text[i] <= '9'
}

/// The number that a row of decimal digits writes.
pub open spec fn value_of(digits: Seq<char>) -> nat
    decreases digits.len(),
{
    if digits.len() == 0 {
        0
    } else {
        value_of(digits.drop_last()) * 10 + (digits.last() as nat - '0' as nat) as nat
    }
}

/// A text without the one `+` that may stand in front of a number.
pub open spec fn without_sign(text: Seq<char>) -> Seq<char> {
    if text.len() > 0 && text[0] == '+' {
        text.drop_first()
    } else {
        text
    }
}

/// The identifier that a text writes: decimal digits, with `+` in front or
/// not, that come to no more than 64 bits hold. Any other text writes none.
pub open spec fn parsed_identifier(text: Seq<char>) -> Option<u64> {
    let digits = without_sign(text);
    if is_digits(digits) && value_of(digits) <= u64::MAX {
        Some(value_of(digits) as u64)
    } else {
        None
    }
}

proof fn value_of_grows(digits: Seq<char>, k: int)
    requires
        0 <= k <= digits.len(),
    ensures
        value_of(digits.take(k)) <= value_of(digits),
    decreases digits.len() - k,
{
    if k == digits.len() {
        assert(digits.take(k) =~= digits);
    } else {
        value_of_grows(digits, k + 1);
        assert(digits.take(k + 1).drop_last() =~= digits.take(k));
    }
}

/// Reads an identifier from a text.
pub fn parse_identifier(text: &str) -> (parsed: Option<u64>)
    ensures
        parsed == parsed_identifier(text@),
{
    let chars = chars_of(text);
    let n = chars.len();
    let first: usize = if n > 0 && chars[0] == '+' {
        1
    } else {
        0
    };
    if first == n {
        return None;
    }
    let ghost digits = without_sign(text@);
    assert(digits =~= text@.skip(first as int));
    let mut value: u64 = 0;
    let mut at: usize = first;
    while at < n
        invariant
            chars@ == text@,
            n == chars.len(),
            first <= at <= n,
            digits == without_sign(text@),
            digits == text@.skip(first as int),
            forall|i: int| 0 <= i < at - first ==> '0' <= #[trigger] digits[i] <= '9',
            value == value_of(digits.take(at - first)),
        decreases n - at,
    {
        let c = chars[at];
        assert(digits[at - first] == c);
        if c < '0' || c > '9' {
            return None;
        }
        let d: u64 = (c as u64) - ('0' as u64);
        proof {
            assert(digits.take(at - first + 1).drop_last() =~= digits.take(at - first));
            assert(digits.take(at - first + 1).last() == c);
            value_of_grows(digits, at - first + 1);
        }
        if value > (u64::MAX - d) / 10 {
            return None;
        }
        value = value * 10 + d;
        at += 1;
    }
    assert(digits.take(n - first) =~= digits);
    Some(value)
}

/// The name that a setting has in the environment.
pub open spec fn setting_name(setting: Setting) -> Seq<char> {
    match setting {
        Setting::UserId => "USERID"@,
        Setting::BotId => "BOTID"@,
        Setting::CustomEmoji => "CUSTOMEMOJI"@,
    }
}

/// The line that tells of a configuration error.
pub open spec fn error_line(error: ConfigError) -> Seq<char> {
    match error {
        ConfigError::Missing(setting) => "Missing "@ + setting_name(setting) + " in environment"@,
        ConfigError::NotANumber(setting) => setting_name(setting) + " must be a number"@,
        ConfigError::Zero(setting) => setting_name(setting) + " must not be zero"@,
    }
}

impl Setting {
    /// The name that the setting has in the environment.
    pub fn name(&self) -> (name: &'static str)
        ensures
            name@ == setting_name(*self),
    {
        match self {
            Setting::UserId => "USERID",
            Setting::BotId => "BOTID",
            Setting::CustomEmoji => "CUSTOMEMOJI",
        }
    }
}

impl ConfigError {
    /// The line that tells of the error.
    pub fn message(&self) -> (line: String)
        ensures
            line@ == error_line(*self),
    {
        match self {
            ConfigError::Missing(setting) => {
                let mut line = "Missing ".to_owned();
                line.append(setting.name());
                line.append(" in environment");
                line
            },
            ConfigError::NotANumber(setting) => {
                let mut line = setting.name().to_owned();
                line.append(" must be a number");
                line
            },
            ConfigError::Zero(setting) => {
                let mut line = setting.name().to_owned();
                line.append(" must not be zero");
                line
            },
        }
    }
}

/// The value of one setting: it has to be there and to write an identifier.
pub open spec fn setting_value(setting: Setting, raw: Option<Seq<char>>) -> Result<
    u64,
    ConfigError,
> {
    match raw {
        None => Err(ConfigError::Missing(setting)),
        Some(text) => match parsed_identifier(text) {
            None => Err(ConfigError::NotANumber(setting)),
            Some(value) => Ok(value),
        },
    }
}

/// The identities that three settings come to. The settings are read in the
/// order user, bot, emoji, and the first that is missing or no number is the
/// error; after that, the first that is zero.
pub open spec fn configured(
    user_id: Option<Seq<char>>,
    bot_id: Option<Seq<char>>,
    custom_emoji: Option<Seq<char>>,
) -> Result<Identities, ConfigError> {
    match setting_value(Setting::UserId, user_id) {
        Err(error) => Err(error),
        Ok(allowed_id) => match setting_value(Setting::BotId, bot_id) {
            Err(error) => Err(error),
            Ok(bot_id) => match setting_value(Setting::CustomEmoji, custom_emoji) {
                Err(error) => Err(error),
                Ok(custom_emoji_id) => if allowed_id == 0 {
                    Err(ConfigError::Zero(Setting::UserId))
                } else if bot_id == 0 {
                    Err(ConfigError::Zero(Setting::BotId))
                } else if custom_emoji_id == 0 {
                    Err(ConfigError::Zero(Setting::CustomEmoji))
                } else {
                    Ok(Identities { allowed_id, bot_id, custom_emoji_id })
                },
            },
        },
    }
}

fn read_setting(setting: Setting, raw: Option<&str>) -> (value: Result<u64, ConfigError>)
    ensures
        value == setting_value(
            setting,
            match raw {
                Some(text) => Some(text@),
                None => None,
            },
        ),
{
    match raw {
        None => Err(ConfigError::Missing(setting)),
        Some(text) => match parse_identifier(text) {
            None => Err(ConfigError::NotANumber(setting)),
            Some(value) => Ok(value),
        },
    }
}

impl Handler {
    /// Sets a responder up from the values of the three settings, each as it
    /// was found: a text, or nothing.
    pub fn from_settings(
        user_id: Option<&str>,
        bot_id: Option<&str>,
        custom_emoji: Option<&str>,
    ) -> (made: Result<Handler, ConfigError>)
        ensures
            match made {
                Ok(handler) => Ok(handler@),
                Err(error) => Err(error),
            } == configured(
                match user_id {
                    Some(text) => Some(text@),
                    None => None,
                },
                match bot_id {
                    Some(text) => Some(text@),
                    None => None,
                },
                match custom_emoji {
                    Some(text) => Some(text@),
                    None => None,
                },
            ),
    {
        let allowed_id = match read_setting(Setting::UserId, user_id) {
            Ok(value) => value,
            Err(error) => {
                return Err(error);
            },
        };
        let bot_id = match read_setting(Setting::BotId, bot_id) {
            Ok(value) => value,
            Err(error) => {
                return Err(error);
            },
        };
        let custom_emoji_id = match read_setting(Setting::CustomEmoji, custom_emoji) {
            Ok(value) => value,
            Err(error) => {
                return Err(error);
            },
        };
        if allowed_id == 0 {
            return Err(ConfigError::Zero(Setting::UserId));
        }
        if bot_id == 0 {
            return Err(ConfigError::Zero(Setting::BotId));
        }
        match Handler::new(allowed_id, bot_id, custom_emoji_id) {
            Some(handler) => Ok(handler),
            None => Err(ConfigError::Zero(Setting::CustomEmoji)),
        }
    }
}

} // verus!
