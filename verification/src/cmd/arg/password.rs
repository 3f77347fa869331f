//! The password argument: an optional flag that unlocks a protected file, with
//! the password either attached to it or asked of the operator.

use super::{first_value, is_present, matched_first_value, matched_present, matched_state, text};
use super::{ArgSpec, FlagModel, FlagState};
use vstd::prelude::*;

verus! {

/// The password argument.
pub struct ArgPassword {}

impl ArgPassword {
    /// The name of the argument.
    pub open spec fn spec_name() -> Seq<char> {
        "password"@
    }

    /// Whether `password` is what resolving may return in `state` with the
    /// prompt `prompt`: nothing where the flag is absent, the attached value
    /// where there is one, and otherwise an answer of the prompt.
    pub open spec fn resolved<F: FnOnce() -> String>(
        state: FlagModel,
        prompt: F,
        password: Option<String>,
    ) -> bool {
        match state {
            FlagModel::Absent => password is None,
            FlagModel::Value(v) => text(password) == Some(v),
            FlagModel::Bare => password is Some && call_ensures(prompt, (), password->0),
        }
    }

    /// The name under which the argument is looked up.
    pub fn name() -> (name: &'static str)
        ensures
            name@ == Self::spec_name(),
    {
        "password"
    }

    /// The description of the flag: `--password`, `--pass` or `-p`, followed
    /// by at most one value.
    pub fn build() -> (spec: ArgSpec)
        ensures
            spec.name@ == Self::spec_name(),
            spec.long@ == "password"@,
            spec.short@ == "p"@,
            spec.alias@ == "pass"@,
            spec.value_name@ == "PASSWORD"@,
            spec.min_values == 0,
            spec.max_values == 1,
            spec.help@ == "Unlock a password protected file"@,
    {
        ArgSpec {
            name: Self::name(),
            long: "password",
            short: "p",
            alias: "pass",
            value_name: "PASSWORD",
            min_values: 0,
            max_values: 1,
            help: "Unlock a password protected file",
        }
    }

    /// Whether the flag was written on the invocation.
    pub fn is_present(matches: &clap::ArgMatches) -> (present: bool)
        ensures
            present == matched_present(matches, Self::spec_name()),
    {
        is_present(matches, Self::name())
    }

    /// The value attached to the flag, if there is one.
    pub fn value_raw(matches: &clap::ArgMatches) -> (raw: Option<String>)
        ensures
            text(raw) == matched_first_value(matches, Self::spec_name()),
    {
        first_value(matches, Self::name())
    }

    /// The state of the flag on the invocation.
    pub fn state(matches: &clap::ArgMatches) -> (state: FlagState)
        ensures
            state@ == matched_state(matches, Self::spec_name()),
    {
        FlagState::of(matches, Self::name())
    }

    /// Whether the operator has to be asked for the password: only where the
    /// flag was written with nothing attached.
    pub fn needs_prompt(state: &FlagState) -> (ask: bool)
        ensures
            ask <==> state@ is Bare,
    {
        match state {
            FlagState::Bare => true,
            _ => false,
        }
    }

    /// Decides the password from the state of the flag. The prompt may be one
    /// that must not be called unless the flag is bare: it is called in that
    /// state alone, and being `FnOnce`, no more than once.
    pub fn resolve<F: FnOnce() -> String>(state: FlagState, prompt: F) -> (password: Option<String>)
        requires
            state@ is Bare ==> call_requires(prompt, ()),
        ensures
            Self::resolved(state@, prompt, password),
    {
        match state {
            FlagState::Absent => None,
            FlagState::Value(v) => Some(v),
            FlagState::Bare => Some(prompt()),
        }
    }

    /// The password for the invocation: `None` where the flag is absent, the
    /// attached value where there is one, and otherwise what the prompt
    /// answers.
    pub fn value<F: FnOnce() -> String>(matches: &clap::ArgMatches, prompt: F) -> (password: Option<
        String,
    >)
        requires
            matched_state(matches, Self::spec_name()) is Bare ==> call_requires(prompt, ()),
        ensures
            Self::resolved(matched_state(matches, Self::spec_name()), prompt, password),
    {
        Self::resolve(Self::state(matches), prompt)
    }

    /// Without the flag there is no password, whatever the prompt would
    /// answer.
    pub proof fn lemma_absent_gives_none<F: FnOnce() -> String>(prompt: F, password: Option<String>)
        requires
            Self::resolved(FlagModel::Absent, prompt, password),
        ensures
            password is None,
    {
    }

    /// A value attached to the flag is the password, letter for letter, an
    /// empty one too, whatever the prompt would answer.
    pub proof fn lemma_value_gives_itself<F: FnOnce() -> String>(
        value: Seq<char>,
        prompt: F,
        password: Option<String>,
    )
        requires
            Self::resolved(FlagModel::Value(value), prompt, password),
        ensures
            password is Some,
            password->0@ == value,
    {
    }

    /// With the bare flag the password is an answer of the prompt: where the
    /// prompt can only answer `answer`, that is the password.
    pub proof fn lemma_bare_gives_answer<F: FnOnce() -> String>(
        answer: Seq<char>,
        prompt: F,
        password: Option<String>,
    )
        requires
            forall|s: String| call_ensures(prompt, (), s) ==> s@ == answer,
            Self::resolved(FlagModel::Bare, prompt, password),
        ensures
            password is Some,
            password->0@ == answer,
    {
    }

    /// Resolving twice in one state, with prompts that can only give the same
    /// answer, gives the same password both times.
    pub proof fn lemma_resolution_repeats<F: FnOnce() -> String, G: FnOnce() -> String>(
        state: FlagModel,
        answer: Seq<char>,
        first_prompt: F,
        second_prompt: G,
        first: Option<String>,
        second: Option<String>,
    )
        requires
            forall|s: String| call_ensures(first_prompt, (), s) ==> s@ == answer,
            forall|s: String| call_ensures(second_prompt, (), s) ==> s@ == answer,
            Self::resolved(state, first_prompt, first),
            Self::resolved(state, second_prompt, second),
        ensures
            text(first) == text(second),
    {
    }
}

} // verus!
