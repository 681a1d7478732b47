//! The settings of the configuration table, and their stored form.
//!
//! The table holds text. Each key has a type, and with it the pair of
//! functions that reads a value from the stored text and writes it back.

use crate::decimal::{
    format_i64, lemma_signed_text_round_trip, parse_i64, parse_u64, parsed_i64, parsed_u64,
    signed_text,
};
use crate::update::opt_text;
use vstd::prelude::*;
use vstd::string::StringExecFns;

verus! {

/// A setting that the configuration table holds.
#[derive(Clone, Copy, Debug, PartialEq, Eq, Structural)]
pub enum ConfKey {
    /// The cursor of the long poll: the next update to ask for.
    Offset,
    /// The one chat that the bot listens to and answers in.
    ChatId,
    /// The system prompt that opens every completion request.
    GptPrompt,
}

impl ConfKey {
    /// The text of the key as the configuration table stores it.
    pub open spec fn db_key(self) -> Seq<char> {
        match self {
            ConfKey::Offset => "OFFSET"@,
            ConfKey::ChatId => "CHAT_ID"@,
            ConfKey::GptPrompt => "GPT_PROMPT"@,
        }
    }

    /// Whether the key's values are integers; the others are text.
    pub open spec fn holds_integer(self) -> bool {
        self != ConfKey::GptPrompt
    }

    /// The name under which the key's row is stored.
    pub fn get_db_key(&self) -> (key: &'static str)
        ensures
            key@ == self.db_key(),
    {
        match self {
            ConfKey::Offset => "OFFSET",
            ConfKey::ChatId => "CHAT_ID",
            ConfKey::GptPrompt => "GPT_PROMPT",
        }
    }

    /// Whether the key's values are integers.
    pub fn is_integer(&self) -> (integer: bool)
        ensures
            integer == self.holds_integer(),
    {
        match self {
            ConfKey::Offset => true,
            ConfKey::ChatId => true,
            ConfKey::GptPrompt => false,
        }
    }
}

/// The value of a setting.
#[derive(Debug)]
pub enum ConfValue {
    Integer(i64),
    Text(String),
}

/// A `ConfValue` as plain values.
pub enum ConfValueView {
    Integer(i64),
    Text(Seq<char>),
}

impl View for ConfValue {
    type V = ConfValueView;

    open spec fn view(&self) -> ConfValueView {
        match self {
            ConfValue::Integer(n) => ConfValueView::Integer(*n),
            ConfValue::Text(t) => ConfValueView::Text(t@),
        }
    }
}

impl ConfValueView {
    /// Whether the value has the type of `key`.
    pub open spec fn fits(self, key: ConfKey) -> bool {
        (self is Integer) == key.holds_integer()
    }

    /// The text that the table stores for the value.
    pub open spec fn stored(self) -> Seq<char> {
        match self {
            ConfValueView::Integer(n) => signed_text(n as int),
            ConfValueView::Text(t) => t,
        }
    }
}

/// The view of an optional value.
pub open spec fn opt_value(value: Option<ConfValue>) -> Option<ConfValueView> {
    match value {
        Some(v) => Some(v@),
        None => None,
    }
}

/// Why a setting could not be had.
#[derive(Debug)]
pub enum ConfError {
    /// A setting that must be set is not.
    Missing { key: ConfKey },
    /// The stored text is no value of the key's type.
    Invalid { key: ConfKey, value: String },
    /// The value to store has another type than the key.
    WrongType { key: ConfKey },
}

/// A `ConfError` as plain values.
pub enum ConfErrorView {
    Missing { key: ConfKey },
    Invalid { key: ConfKey, value: Seq<char> },
    WrongType { key: ConfKey },
}

impl View for ConfError {
    type V = ConfErrorView;

    open spec fn view(&self) -> ConfErrorView {
        match self {
            ConfError::Missing { key } => ConfErrorView::Missing { key: *key },
            ConfError::Invalid { key, value } => ConfErrorView::Invalid { key: *key, value: value@ },
            ConfError::WrongType { key } => ConfErrorView::WrongType { key: *key },
        }
    }
}

impl ConfErrorView {
    /// The error in words.
    pub open spec fn message(self) -> Seq<char> {
        match self {
            ConfErrorView::Missing { key } => "Value by key '"@ + key.db_key() + "' is not set"@,
            ConfErrorView::Invalid { key, value } => "Error parsing value by key '"@ + key.db_key()
                + "', value: '"@ + value + "'"@,
            ConfErrorView::WrongType { key } => "Value of another type than key '"@ + key.db_key()
                + "'"@,
        }
    }
}

impl ConfError {
    /// The error in words.
    pub fn message(&self) -> (text: String)
        ensures
            text@ == self@.message(),
    {
        match self {
            ConfError::Missing { key } => {
                let mut text = String::from_str("Value by key '");
                text.append(key.get_db_key());
                text.append("' is not set");
                text
            },
            ConfError::Invalid { key, value } => {
                let mut text = String::from_str("Error parsing value by key '");
                text.append(key.get_db_key());
                text.append("', value: '");
                text.append(value.as_str());
                text.append("'");
                text
            },
            ConfError::WrongType { key } => {
                let mut text = String::from_str("Value of another type than key '");
                text.append(key.get_db_key());
                text.append("'");
                text
            },
        }
    }
}

/// What the stored text `raw` holds for `key`: nothing where nothing is
/// stored, else the value that the text writes, or the error that it writes
/// none.
pub open spec fn read_value(key: ConfKey, raw: Option<Seq<char>>) -> Result<
    Option<ConfValueView>,
    ConfErrorView,
> {
    match raw {
        None => Ok(None),
        Some(text) => if key.holds_integer() {
            match parsed_i64(text) {
                Some(n) => Ok(Some(ConfValueView::Integer(n))),
                None => Err(ConfErrorView::Invalid { key, value: text }),
            }
        } else {
            Ok(Some(ConfValueView::Text(text)))
        },
    }
}

/// The text to store for `value` under `key`: nothing for no value, and an
/// error for a value of another type than the key's.
pub open spec fn written_value(key: ConfKey, value: Option<ConfValueView>) -> Result<
    Option<Seq<char>>,
    ConfErrorView,
> {
    match value {
        None => Ok(None),
        Some(v) => if v.fits(key) {
            Ok(Some(v.stored()))
        } else {
            Err(ConfErrorView::WrongType { key })
        },
    }
}

/// The view of the outcome of reading a setting.
pub open spec fn read_view(outcome: Result<Option<ConfValue>, ConfError>) -> Result<
    Option<ConfValueView>,
    ConfErrorView,
> {
    match outcome {
        Ok(v) => Ok(opt_value(v)),
        Err(e) => Err(e@),
    }
}

/// The view of the outcome of writing a setting.
pub open spec fn written_view(outcome: Result<Option<String>, ConfError>) -> Result<
    Option<Seq<char>>,
    ConfErrorView,
> {
    match outcome {
        Ok(t) => Ok(opt_text(t)),
        Err(e) => Err(e@),
    }
}

/// The integer that the stored text `raw` holds for `key`: none where nothing
/// is stored, and an error where the text writes no integer.
pub open spec fn read_integer_value(key: ConfKey, raw: Option<Seq<char>>) -> Result<
    Option<i64>,
    ConfErrorView,
> {
    match raw {
        None => Ok(None),
        Some(text) => match parsed_i64(text) {
            Some(n) => Ok(Some(n)),
            None => Err(ConfErrorView::Invalid { key, value: text }),
        },
    }
}

/// The view of the outcome of reading an integer.
pub open spec fn integer_view(outcome: Result<Option<i64>, ConfError>) -> Result<
    Option<i64>,
    ConfErrorView,
> {
    match outcome {
        Ok(n) => Ok(n),
        Err(e) => Err(e@),
    }
}

/// Reads an integer from the text that the table stores for `key`.
pub fn read_integer(key: ConfKey, raw: &Option<String>) -> (value: Result<Option<i64>, ConfError>)
    ensures
        integer_view(value) == read_integer_value(key, opt_text(*raw)),
{
    match raw {
        None => Ok(None),
        Some(text) => match parse_i64(text.as_str()) {
            Some(n) => Ok(Some(n)),
            None => Err(ConfError::Invalid { key, value: text.clone() }),
        },
    }
}

/// Reads the value of `key` from the text that the table stores for it.
pub fn read_conf_value(key: ConfKey, raw: &Option<String>) -> (value: Result<
    Option<ConfValue>,
    ConfError,
>)
    ensures
        read_view(value) == read_value(key, opt_text(*raw)),
{
    match raw {
        None => Ok(None),
        Some(text) => {
            if key.is_integer() {
                match parse_i64(text.as_str()) {
                    Some(n) => Ok(Some(ConfValue::Integer(n))),
                    None => Err(ConfError::Invalid { key, value: text.clone() }),
                }
            } else {
                Ok(Some(ConfValue::Text(text.clone())))
            }
        },
    }
}

/// The text that the table is to store for `value` under `key`.
pub fn write_conf_value(key: ConfKey, value: &Option<ConfValue>) -> (raw: Result<
    Option<String>,
    ConfError,
>)
    ensures
        written_view(raw) == written_value(key, opt_value(*value)),
{
    match value {
        None => Ok(None),
        Some(ConfValue::Integer(n)) => {
            if key.is_integer() {
                Ok(Some(format_i64(*n)))
            } else {
                Err(ConfError::WrongType { key })
            }
        },
        Some(ConfValue::Text(t)) => {
            if key.is_integer() {
                Err(ConfError::WrongType { key })
            } else {
                Ok(Some(t.clone()))
            }
        },
    }
}

/// A value that was written under its key is read back unchanged.
pub proof fn lemma_conf_round_trip(key: ConfKey, value: Option<ConfValueView>)
    requires
        value matches Some(v) ==> v.fits(key),
    ensures
        written_value(key, value) matches Ok(raw) && read_value(key, raw) == Ok::<
            Option<ConfValueView>,
            ConfErrorView,
        >(value),
{
    match value {
        Some(ConfValueView::Integer(n)) => {
            lemma_signed_text_round_trip(n as int);
        },
        _ => {},
    }
}

/// How many seconds a long poll may stay open where nothing else is set.
pub const DEFAULT_POLL_TIMEOUT: u32 = 10;

/// How many seconds to wait after a failed fetch where nothing else is set.
pub const DEFAULT_RETRY_TIMEOUT: u64 = 5;

/// The poll timeout that the setting `raw` asks for: the default where it is
/// not set, and none where it is no number of seconds that a `u32` holds.
pub open spec fn poll_timeout_of(raw: Option<Seq<char>>) -> Option<u32> {
    match raw {
        None => Some(DEFAULT_POLL_TIMEOUT),
        Some(text) => match parsed_u64(text) {
            Some(seconds) => if seconds <= u32::MAX {
                Some(seconds as u32)
            } else {
                None
            },
            None => None,
        },
    }
}

/// The wait after a failed fetch that the setting `raw` asks for: the default
/// where it is not set, and none where it is no number of seconds that a `u64`
/// holds.
pub open spec fn retry_timeout_of(raw: Option<Seq<char>>) -> Option<u64> {
    match raw {
        None => Some(DEFAULT_RETRY_TIMEOUT),
        Some(text) => parsed_u64(text),
    }
}

/// Reads the poll timeout, in seconds, from its setting.
pub fn poll_timeout(raw: &Option<String>) -> (seconds: Option<u32>)
    ensures
        seconds == poll_timeout_of(opt_text(*raw)),
{
    match raw {
        None => Some(DEFAULT_POLL_TIMEOUT),
        Some(text) => match parse_u64(text.as_str()) {
            Some(seconds) => {
                if seconds <= 4294967295 {
                    Some(seconds as u32)
                } else {
                    None
                }
            },
            None => None,
        },
    }
}

/// Reads the wait after a failed fetch, in seconds, from its setting.
pub fn retry_timeout(raw: &Option<String>) -> (seconds: Option<u64>)
    ensures
        seconds == retry_timeout_of(opt_text(*raw)),
{
    match raw {
        None => Some(DEFAULT_RETRY_TIMEOUT),
        Some(text) => parse_u64(text.as_str()),
    }
}

} // verus!
