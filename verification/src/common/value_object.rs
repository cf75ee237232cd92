//! The value-object framework: a piece of form text is first screened for
//! blankness by its type (`new`), then validated (`validate`). A required
//! value object refuses blank text, an optional one holds nothing for it.

use crate::common::text::{is_blank, is_blank_str, lemma_trim_idempotent, trim, trim_str};
use vstd::prelude::*;
use vstd::string::*;

verus! {

/// Why a piece of text was refused.
#[derive(Debug, Clone, Copy, PartialEq, Eq)]
pub enum ValueObjectError {
    /// Blank text where a value is required.
    Required,
    /// Text that the value's rules refuse, with the message to show.
    InvalidInput(&'static str),
}

impl ValueObjectError {
    /// The message of a missing required value.
    pub const REQUIRED: &'static str = "A mező kitöltése kötelező!";

    /// The message this error shows to the user.
    pub open spec fn spec_message(self) -> Seq<char> {
        match self {
            ValueObjectError::Required => Self::REQUIRED@,
            ValueObjectError::InvalidInput(m) => m@,
        }
    }

    /// The message this error shows to the user.
    pub fn message(&self) -> (r: &'static str)
        ensures
            r@ == self.spec_message(),
    {
        match self {
            ValueObjectError::Required => Self::REQUIRED,
            ValueObjectError::InvalidInput(m) => m,
        }
    }

    /// The message as an owned `String` (what the error displays as).
    pub fn to_string(&self) -> (r: String)
        ensures
            r@ == self.spec_message(),
    {
        self.message().to_owned()
    }
}

/// The message of a failed outcome, nothing for a success.
pub open spec fn error_message<V>(r: Result<V, ValueObjectError>) -> Option<Seq<char>> {
    match r {
        Ok(_) => None,
        Err(e) => Some(e.spec_message()),
    }
}

/// The characters of an optional text.
pub open spec fn opt_text(o: Option<String>) -> Option<Seq<char>> {
    match o {
        Some(s) => Some(s@),
        None => None,
    }
}

/// How most values screen raw input: blank text counts as absent, other
/// text is kept as it is.
pub open spec fn keep_unless_blank(data: Seq<char>) -> Option<Seq<char>> {
    if is_blank(data) {
        None
    } else {
        Some(data)
    }
}

/// How enumerated values screen raw input: the text is trimmed, and counts
/// as absent when nothing is left.
pub open spec fn keep_trimmed(data: Seq<char>) -> Option<Seq<char>> {
    if trim(data).len() == 0 {
        None
    } else {
        Some(trim(data))
    }
}

/// Screening keeps what it kept: text that `keep_unless_blank` kept is
/// kept again unchanged.
pub proof fn lemma_keep_unless_blank_keeps(data: Seq<char>)
    ensures
        keep_unless_blank(data) matches Some(t) ==> keep_unless_blank(t) == Some(t),
{
}

/// Screening keeps what it kept: text that `keep_trimmed` kept is kept
/// again unchanged.
pub proof fn lemma_keep_trimmed_keeps(data: Seq<char>)
    ensures
        keep_trimmed(data) matches Some(t) ==> keep_trimmed(t) == Some(t),
{
    lemma_trim_idempotent(data);
}

/// Decides `keep_unless_blank`, giving an owned copy of the kept text.
pub fn keep_unless_blank_str(data: &str) -> (r: Option<String>)
    ensures
        opt_text(r) == keep_unless_blank(data@),
{
    if is_blank_str(data) {
        None
    } else {
        Some(data.to_owned())
    }
}

/// Decides `keep_trimmed`, giving an owned copy of the kept text.
pub fn keep_trimmed_str(data: &str) -> (r: Option<String>)
    ensures
        opt_text(r) == keep_trimmed(data@),
{
    let t = trim_str(data);
    if t.unicode_len() == 0 {
        None
    } else {
        Some(t.to_owned())
    }
}

/// The data behind a value object: a text with its own rules.
pub trait ValueObjectData: Sized {
    /// The text the value holds.
    spec fn spec_text(&self) -> Seq<char>;

    /// What `new` keeps of raw input: `None` when the input counts as blank.
    spec fn spec_new(data: Seq<char>) -> Option<Seq<char>>;

    /// The verdict of `validate` on a held text.
    spec fn spec_validate(text: Seq<char>) -> Result<(), ValueObjectError>;

    /// What `new` keeps of raw input, it keeps again unchanged.
    proof fn lemma_new_keeps(data: Seq<char>)
        ensures
            Self::spec_new(data) matches Some(t) ==> Self::spec_new(t) == Some(t),
    ;

    /// Screens raw input for blankness.
    fn new(data: &str) -> (r: Option<Self>)
        ensures
            match r {
                None => Self::spec_new(data@) is None,
                Some(v) => Self::spec_new(data@) == Some(v.spec_text()),
            },
    ;

    /// Checks the held text against the value's rules.
    fn validate(&self) -> (r: Result<(), ValueObjectError>)
        ensures
            r == Self::spec_validate(self.spec_text()),
    ;

    /// The held text.
    fn get_value(&self) -> (r: &String)
        ensures
            r@ == self.spec_text(),
    ;

    /// The held text, under the accessor name the form values use.
    fn get_data(&self) -> (r: &String)
        ensures
            r@ == self.spec_text(),
    {
        self.get_value()
    }
}

/// What parsing `data` into a required value object gives: the held text,
/// or the reason for refusal.
pub open spec fn spec_parse_required<T: ValueObjectData>(data: Seq<char>) -> Result<
    Seq<char>,
    ValueObjectError,
> {
    match T::spec_new(data) {
        None => Err(ValueObjectError::Required),
        Some(t) => match T::spec_validate(t) {
            Ok(_) => Ok(t),
            Err(e) => Err(e),
        },
    }
}

/// What parsing `data` into an optional value object gives: the held text
/// if any, or the reason for refusal.
pub open spec fn spec_parse_optional<T: ValueObjectData>(data: Seq<char>) -> Result<
    Option<Seq<char>>,
    ValueObjectError,
> {
    match T::spec_new(data) {
        None => Ok(None),
        Some(t) => match T::spec_validate(t) {
            Ok(_) => Ok(Some(t)),
            Err(e) => Err(e),
        },
    }
}

/// Parsing is stable: the text that a parsed required value holds parses
/// again to the same value (a stored value reads back as it was written).
pub proof fn lemma_parse_required_stable<T: ValueObjectData>(data: Seq<char>)
    ensures
        spec_parse_required::<T>(data) matches Ok(t) ==> spec_parse_required::<T>(t) == Ok::<
            Seq<char>,
            ValueObjectError,
        >(t),
{
    T::lemma_new_keeps(data);
}

/// Parsing is stable: the text that a present optional value holds parses
/// again to the same value. A required value and an optional one agree:
/// text that gives a present optional value gives that required value, and
/// text that gives no optional value is refused as missing when required.
pub proof fn lemma_parse_optional_stable<T: ValueObjectData>(data: Seq<char>)
    ensures
        spec_parse_optional::<T>(data) matches Ok(Some(t)) ==> spec_parse_optional::<T>(t)
            == Ok::<Option<Seq<char>>, ValueObjectError>(Some(t)),
        spec_parse_optional::<T>(data) matches Ok(Some(t)) ==> spec_parse_required::<T>(data)
            == Ok::<Seq<char>, ValueObjectError>(t),
        spec_parse_optional::<T>(data) == Ok::<Option<Seq<char>>, ValueObjectError>(None)
            ==> spec_parse_required::<T>(data) == Err::<Seq<char>, ValueObjectError>(
            ValueObjectError::Required,
        ),
{
    T::lemma_new_keeps(data);
}

/// A value that must be present and valid.
#[derive(Debug, Clone, PartialEq)]
pub struct ValueObjectRequired<T>(T);

impl<T: ValueObjectData> View for ValueObjectRequired<T> {
    type V = Seq<char>;

    closed spec fn view(&self) -> Seq<char> {
        self.0.spec_text()
    }
}

impl<T: ValueObjectData> ValueObjectRequired<T> {
    /// Parses form text into a required value.
    pub fn parse(data: &str) -> (r: Result<Self, ValueObjectError>)
        ensures
            match r {
                Ok(v) => spec_parse_required::<T>(data@) == Ok::<Seq<char>, ValueObjectError>(v@),
                Err(e) => spec_parse_required::<T>(data@) == Err::<Seq<char>, ValueObjectError>(e),
            },
    {
        match T::new(data) {
            None => Err(ValueObjectError::Required),
            Some(v) => match v.validate() {
                Ok(()) => Ok(ValueObjectRequired(v)),
                Err(e) => Err(e),
            },
        }
    }

    /// The held text; never fails for a value that was parsed.
    pub fn as_str(&self) -> (r: Result<&str, ValueObjectError>)
        ensures
            r matches Ok(s) && s@ == self@,
    {
        Ok(self.0.get_value().as_str())
    }

    /// The data behind the value.
    pub fn extract(&self) -> (r: &T)
        ensures
            r.spec_text() == self@,
    {
        &self.0
    }
}

impl<T: ValueObjectData> std::str::FromStr for ValueObjectRequired<T> {
    type Err = ValueObjectError;

    fn from_str(s: &str) -> (r: Result<Self, Self::Err>)
        ensures
            match r {
                Ok(v) => spec_parse_required::<T>(s@) == Ok::<Seq<char>, ValueObjectError>(v@),
                Err(e) => spec_parse_required::<T>(s@) == Err::<Seq<char>, ValueObjectError>(e),
            },
    {
        Self::parse(s)
    }
}

/// A value that may be absent, and is valid when present.
#[derive(Debug, Clone, PartialEq)]
pub struct ValueObjectOptional<T>(Option<T>);

impl<T: ValueObjectData> View for ValueObjectOptional<T> {
    type V = Option<Seq<char>>;

    closed spec fn view(&self) -> Option<Seq<char>> {
        match self.0 {
            Some(v) => Some(v.spec_text()),
            None => None,
        }
    }
}

impl<T: ValueObjectData> ValueObjectOptional<T> {
    /// Parses form text into an optional value; blank text gives no value.
    pub fn parse(data: &str) -> (r: Result<Self, ValueObjectError>)
        ensures
            match r {
                Ok(v) => spec_parse_optional::<T>(data@) == Ok::<
                    Option<Seq<char>>,
                    ValueObjectError,
                >(v@),
                Err(e) => spec_parse_optional::<T>(data@) == Err::<
                    Option<Seq<char>>,
                    ValueObjectError,
                >(e),
            },
    {
        match T::new(data) {
            None => Ok(ValueObjectOptional(None)),
            Some(v) => match v.validate() {
                Ok(()) => Ok(ValueObjectOptional(Some(v))),
                Err(e) => Err(e),
            },
        }
    }

    /// Whether a value is held.
    pub fn is_present(&self) -> (r: bool)
        ensures
            r == (self@ is Some),
    {
        self.0.is_some()
    }

    /// The held text, if any.
    pub fn as_str(&self) -> (r: Option<&str>)
        ensures
            match r {
                Some(s) => self@ == Some(s@),
                None => self@ is None,
            },
    {
        match &self.0 {
            Some(v) => Some(v.get_value().as_str()),
            None => None,
        }
    }
}

impl<T: ValueObjectData> std::str::FromStr for ValueObjectOptional<T> {
    type Err = ValueObjectError;

    fn from_str(s: &str) -> (r: Result<Self, Self::Err>)
        ensures
            match r {
                Ok(v) => spec_parse_optional::<T>(s@) == Ok::<
                    Option<Seq<char>>,
                    ValueObjectError,
                >(v@),
                Err(e) => spec_parse_optional::<T>(s@) == Err::<
                    Option<Seq<char>>,
                    ValueObjectError,
                >(e),
            },
    {
        Self::parse(s)
    }
}

/// Parses form text into a required value, and gives beside the outcome
/// the message to report for it (none for a success).
pub fn parse_required_noted<T: ValueObjectData>(data: &str) -> (r: (
    Result<ValueObjectRequired<T>, ValueObjectError>,
    Option<String>,
))
    ensures
        match r.0 {
            Ok(v) => spec_parse_required::<T>(data@) == Ok::<Seq<char>, ValueObjectError>(v@),
            Err(e) => spec_parse_required::<T>(data@) == Err::<Seq<char>, ValueObjectError>(e),
        },
        opt_text(r.1) == error_message(spec_parse_required::<T>(data@)),
{
    let v = ValueObjectRequired::<T>::parse(data);
    let note = match &v {
        Ok(_) => None,
        Err(e) => Some(e.to_string()),
    };
    (v, note)
}

/// Parses form text into an optional value, and gives beside the outcome
/// the message to report for it (none for a success).
pub fn parse_optional_noted<T: ValueObjectData>(data: &str) -> (r: (
    Result<ValueObjectOptional<T>, ValueObjectError>,
    Option<String>,
))
    ensures
        match r.0 {
            Ok(v) => spec_parse_optional::<T>(data@) == Ok::<Option<Seq<char>>, ValueObjectError>(
                v@,
            ),
            Err(e) => spec_parse_optional::<T>(data@) == Err::<Option<Seq<char>>, ValueObjectError>(
                e,
            ),
        },
        opt_text(r.1) == error_message(spec_parse_optional::<T>(data@)),
{
    let v = ValueObjectOptional::<T>::parse(data);
    let note = match &v {
        Ok(_) => None,
        Err(e) => Some(e.to_string()),
    };
    (v, note)
}

} // verus!
