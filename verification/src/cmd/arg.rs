//! What all argument definitions share: the description of a flag, the three
//! states a flag can be in on an invocation, and the lookups in a parsed
//! invocation.

use vstd::prelude::*;

pub mod password;

verus! {

/// How a flag that takes at most one value is described to the parser.
#[derive(Debug)]
pub struct ArgSpec {
    /// The name under which the flag is looked up in a parsed invocation.
    pub name: &'static str,
    /// The long form, written after two dashes.
    pub long: &'static str,
    /// The short form, written after one dash.
    pub short: &'static str,
    /// A second long form.
    pub alias: &'static str,
    /// How the value is called in the usage text.
    pub value_name: &'static str,
    /// The fewest values that may follow the flag.
    pub min_values: u64,
    /// The most values that may follow the flag.
    pub max_values: u64,
    /// The line shown for the flag in the help text.
    pub help: &'static str,
}

/// What the operator wrote about a flag on one invocation.
#[derive(Debug)]
pub enum FlagState {
    /// The flag was not written.
    Absent,
    /// The flag was written with nothing attached to it.
    Bare,
    /// The flag was written with this value, which may be empty.
    Value(String),
}

/// A [`FlagState`] as contracts see it: the value as text.
pub enum FlagModel {
    Absent,
    Bare,
    Value(Seq<char>),
}

impl View for FlagState {
    type V = FlagModel;

    open spec fn view(&self) -> FlagModel {
        match self {
            FlagState::Absent => FlagModel::Absent,
            FlagState::Bare => FlagModel::Bare,
            FlagState::Value(v) => FlagModel::Value(v@),
        }
    }
}

/// The state that a presence answer and a value answer amount to. Presence is
/// asked first: without it the value answer is not looked at.
pub open spec fn flag_model(present: bool, raw: Option<Seq<char>>) -> FlagModel {
    if !present {
        FlagModel::Absent
    } else {
        match raw {
            Some(v) => FlagModel::Value(v),
            None => FlagModel::Bare,
        }
    }
}

/// The state of the flag `name` on `matches`.
pub open spec fn matched_state(matches: &clap::ArgMatches, name: Seq<char>) -> FlagModel {
    flag_model(matched_present(matches, name), matched_first_value(matches, name))
}

impl FlagState {
    /// Tells the three states apart from the two answers of a lookup. A value
    /// is kept as it is: it is neither trimmed nor judged.
    pub fn classify(present: bool, raw: Option<String>) -> (state: FlagState)
        ensures
            state@ == flag_model(present, text(raw)),
    {
        if !present {
            return FlagState::Absent;
        }
        match raw {
            Some(v) => FlagState::Value(v),
            None => FlagState::Bare,
        }
    }

    /// Looks the flag `name` up in a parsed invocation.
    pub fn of(matches: &clap::ArgMatches, name: &str) -> (state: FlagState)
        ensures
            state@ == matched_state(matches, name@),
    {
        if !is_present(matches, name) {
            return FlagState::Absent;
        }
        FlagState::classify(true, first_value(matches, name))
    }
}

/// `clap`'s record of a parsed invocation. Its contents are not visible to the
/// verifier; they are spoken of through [`matched_present`] and
/// [`matched_first_value`].
#[verifier::external_type_specification]
#[verifier::external_body]
pub struct ExArgMatches<'a>(clap::ArgMatches<'a>);

/// What `clap::ArgMatches::is_present` answers for `name` on `matches`: whether
/// an argument (or the subcommand) of that name was matched on the invocation.
pub uninterp spec fn matched_present(matches: &clap::ArgMatches, name: Seq<char>) -> bool;

/// What `clap::ArgMatches::value_of_lossy` answers for `name` on `matches`: the
/// first value that was given with the argument, read as text, or `None` where
/// the argument was not matched or came without a value.
pub uninterp spec fn matched_first_value(matches: &clap::ArgMatches, name: Seq<char>) -> Option<
    Seq<char>,
>;

/// The text of an optional string.
pub open spec fn text(value: Option<String>) -> Option<Seq<char>> {
    match value {
        Some(s) => Some(s@),
        None => None,
    }
}

/// Calls `clap::ArgMatches::is_present`. Trusted: the answer is the one that
/// [`matched_present`] names; nothing more is claimed of it.
#[verifier::external_body]
pub(crate) fn is_present(matches: &clap::ArgMatches, name: &str) -> (present: bool)
    ensures
        present == matched_present(matches, name@),
{
    matches.is_present(name)
}

/// Calls `clap::ArgMatches::value_of_lossy` and copies the text it returns.
/// Trusted: the answer is the one that [`matched_first_value`] names. The
/// lossy lookup is the one that returns on every invocation; on a value that
/// is valid UTF-8 it gives the value unchanged.
#[verifier::external_body]
pub(crate) fn first_value(matches: &clap::ArgMatches, name: &str) -> (value: Option<String>)
    ensures
        text(value) == matched_first_value(matches, name@),
{
    matches.value_of_lossy(name).map(|v| v.into_owned())
}

} // verus!
