//! What became of one process identifier, and the line that reports it.
use vstd::prelude::*;
use crate::error::{NameError, OsError};

verus! {

/// The result of looking one process up: exactly one of a name and the two
/// kinds of failure.
#[derive(Debug, PartialEq, Eq)]
#[allow(inconsistent_fields)]
pub enum Outcome {
    /// The process was opened and its name resolved.
    Named { pid: u32, name: String },
    /// The process was opened, but its name could not be resolved.
    NameFailed { pid: u32, error: NameError },
    /// The process could not be opened.
    OpenFailed { pid: u32, error: OsError },
}

/// An [`Outcome`] with the name as a sequence of characters.
#[allow(inconsistent_fields)]
pub ghost enum OutcomeModel {
    Named { pid: u32, name: Seq<char> },
    NameFailed { pid: u32, error: NameError },
    OpenFailed { pid: u32, error: OsError },
}

impl View for Outcome {
    type V = OutcomeModel;

    open spec fn view(&self) -> OutcomeModel {
        match *self {
            Outcome::Named { pid, name } => OutcomeModel::Named { pid, name: name@ },
            Outcome::NameFailed { pid, error } => OutcomeModel::NameFailed { pid, error },
            Outcome::OpenFailed { pid, error } => OutcomeModel::OpenFailed { pid, error },
        }
    }
}

/// Where a report line belongs.
#[derive(Clone, Copy, Debug, PartialEq, Eq, Structural)]
pub enum Stream {
    /// The ordinary output.
    Output,
    /// The error output.
    Error,
}

/// The character of the decimal digit `d`.
pub open spec fn digit(d: nat) -> char
    recommends
        d < 10,
{
    (0x30 + d) as u8 as char
}

/// The decimal numeral of `n`, without leading zeros.
pub open spec fn decimal(n: nat) -> Seq<char>
    decreases n,
{
    if n < 10 {
        seq![digit(n)]
    } else {
        decimal(n / 10).push(digit(n % 10))
    }
}

/// The number that a sequence of decimal digits denotes.
pub open spec fn denoted(digits: Seq<char>) -> nat
    decreases digits.len(),
{
    if digits.len() == 0 {
        0
    } else {
        (10 * denoted(digits.drop_last()) + (digits.last() as nat - 0x30)) as nat
    }
}

/// A numeral denotes the number that it was written for.
pub proof fn lemma_decimal_denotes(n: nat)
    ensures
        denoted(decimal(n)) == n,
        decimal(n).len() >= 1,
    decreases n,
{
    if n < 10 {
        assert(decimal(n).drop_last() =~= Seq::<char>::empty());
        assert(denoted(Seq::<char>::empty()) == 0);
    } else {
        lemma_decimal_denotes(n / 10);
        assert(decimal(n).drop_last() =~= decimal(n / 10));
    }
}

/// The text of the decimal digit `d`.
fn digit_text(d: u32) -> (r: &'static str)
    requires
        d < 10,
    ensures
        r@ == seq![digit(d as nat)],
{
    proof {
        reveal_strlit("0");
        reveal_strlit("1");
        reveal_strlit("2");
        reveal_strlit("3");
        reveal_strlit("4");
        reveal_strlit("5");
        reveal_strlit("6");
        reveal_strlit("7");
        reveal_strlit("8");
        reveal_strlit("9");
    }
    let text = match d {
        0 => "0",
        1 => "1",
        2 => "2",
        3 => "3",
        4 => "4",
        5 => "5",
        6 => "6",
        7 => "7",
        8 => "8",
        _ => "9",
    };
    assert(text@ =~= seq![digit(d as nat)]);
    text
}

/// Writes `n` as a decimal numeral.
pub fn numeral(n: u32) -> (r: String)
    ensures
        r@ == decimal(n as nat),
    decreases n,
{
    if n < 10 {
        String::from_str(digit_text(n))
    } else {
        let mut text = numeral(n / 10);
        text.append(digit_text(n % 10));
        assert(text@ =~= decimal(n as nat));
        text
    }
}

/// What a report line says of a failed name resolution: the system's own
/// text for a failure of the system, and the library's for its own.
pub open spec fn diagnostic(error: NameError, os_text: Seq<char>) -> Seq<char> {
    match error {
        NameError::Os(_) => os_text,
        NameError::TooLong => "the name does not fit the largest buffer"@,
        NameError::Decode => "the name is not valid UTF-8"@,
    }
}

impl OutcomeModel {
    /// The identifier that the outcome is about.
    pub open spec fn pid(self) -> u32 {
        match self {
            OutcomeModel::Named { pid, .. } => pid,
            OutcomeModel::NameFailed { pid, .. } => pid,
            OutcomeModel::OpenFailed { pid, .. } => pid,
        }
    }

    /// The failure of the system that the outcome reports, if it reports one.
    pub open spec fn os_error(self) -> Option<OsError> {
        match self {
            OutcomeModel::NameFailed { error: NameError::Os(error), .. } => Some(error),
            OutcomeModel::OpenFailed { error, .. } => Some(error),
            _ => None,
        }
    }

    /// Where the report line belongs: a failure to open goes to the error
    /// output, everything else to the ordinary output.
    pub open spec fn stream(self) -> Stream {
        match self {
            OutcomeModel::OpenFailed { .. } => Stream::Error,
            _ => Stream::Output,
        }
    }

    /// The report line, given the system's text for the failure that
    /// [`OutcomeModel::os_error`] names.
    pub open spec fn line(self, os_text: Seq<char>) -> Seq<char> {
        match self {
            OutcomeModel::Named { pid, name } => decimal(pid as nat) + ": "@ + name,
            OutcomeModel::NameFailed { pid, error } => decimal(pid as nat)
                + ": (failed to get name: "@ + diagnostic(error, os_text) + ")"@,
            OutcomeModel::OpenFailed { pid, .. } => "Failed to open "@ + decimal(pid as nat) + ": "@
                + os_text,
        }
    }
}

impl Outcome {
    /// The identifier that the outcome is about.
    pub fn pid(&self) -> (r: u32)
        ensures
            r == self@.pid(),
    {
        match self {
            Outcome::Named { pid, .. } => *pid,
            Outcome::NameFailed { pid, .. } => *pid,
            Outcome::OpenFailed { pid, .. } => *pid,
        }
    }

    /// The failure of the system that the outcome reports, if it reports
    /// one. Its text is what [`Outcome::line`] needs.
    pub fn os_error(&self) -> (r: Option<OsError>)
        ensures
            r == self@.os_error(),
    {
        match self {
            Outcome::NameFailed { error: NameError::Os(error), .. } => Some(*error),
            Outcome::OpenFailed { error, .. } => Some(*error),
            _ => None,
        }
    }

    /// Where the report line belongs.
    pub fn stream(&self) -> (r: Stream)
        ensures
            r == self@.stream(),
    {
        match self {
            Outcome::OpenFailed { .. } => Stream::Error,
            _ => Stream::Output,
        }
    }

    /// The report line. `os_text` is the system's text for the failure that
    /// [`Outcome::os_error`] names; it is not read when there is none.
    pub fn line(&self, os_text: &str) -> (r: String)
        ensures
            r@ == self@.line(os_text@),
    {
        match self {
            Outcome::Named { pid, name } => {
                let mut text = numeral(*pid);
                text.append(": ");
                text.append(name.as_str());
                text
            },
            Outcome::NameFailed { pid, error } => {
                let mut text = numeral(*pid);
                text.append(": (failed to get name: ");
                match error {
                    NameError::Os(_) => text.append(os_text),
                    NameError::TooLong => text.append("the name does not fit the largest buffer"),
                    NameError::Decode => text.append("the name is not valid UTF-8"),
                }
                text.append(")");
                text
            },
            Outcome::OpenFailed { pid, .. } => {
                let mut text = String::from_str("Failed to open ");
                let number = numeral(*pid);
                text.append(number.as_str());
                text.append(": ");
                text.append(os_text);
                text
            },
        }
    }
}

} // verus!
