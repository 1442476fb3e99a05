//! The command line of a host process: which session to run, and with which
//! interest filter.

use vstd::prelude::*;
use crate::filter::ChangeEventType;
use crate::session::SessionKind;

verus! {

/// What the host was asked to run.
#[derive(Clone, Copy, Debug, PartialEq, Eq, Structural)]
pub struct Command {
    pub session: SessionKind,
    /// The interest filter. Only the poll and feed sessions read it.
    pub filter: ChangeEventType,
}

/// Why a command line was refused.
#[derive(Clone, Copy, Debug, PartialEq, Eq, Structural)]
pub enum UsageError {
    /// No mode was given.
    MissingMode,
    /// The mode is none of `snapshot`, `poll`, `feed`, `health-check`.
    UnknownMode,
    /// The filter is none of `insert`, `update`, `all`.
    UnknownFilter,
    /// There are more arguments than the mode takes.
    TooManyArguments,
}

/// The exit status of a refused command line.
pub const EXIT_USAGE: u8 = 1;

/// The session that `name` selects.
pub open spec fn mode_named(name: Seq<char>) -> Option<SessionKind> {
    if name == "snapshot"@ {
        Some(SessionKind::Snapshot)
    } else if name == "poll"@ {
        Some(SessionKind::Poll)
    } else if name == "feed"@ {
        Some(SessionKind::Feed)
    } else if name == "health-check"@ {
        Some(SessionKind::HealthCheck)
    } else {
        None
    }
}

/// The interest filter that `name` selects.
pub open spec fn filter_named(name: Seq<char>) -> Option<ChangeEventType> {
    if name == "insert"@ {
        Some(ChangeEventType::Insert)
    } else if name == "update"@ {
        Some(ChangeEventType::Update)
    } else if name == "all"@ {
        Some(ChangeEventType::All)
    } else {
        None
    }
}

/// Whether a session of this kind takes an interest filter.
pub open spec fn takes_filter(session: SessionKind) -> bool {
    session is Poll || session is Feed
}

/// What the arguments `args`, without the program's name, ask for.
///
/// The first argument names the mode. The poll and feed modes take one more,
/// the interest filter, which is `all` where it is left out.
pub open spec fn command_of(args: Seq<Seq<char>>) -> Result<Command, UsageError> {
    if args.len() == 0 {
        Err(UsageError::MissingMode)
    } else {
        match mode_named(args[0]) {
            None => Err(UsageError::UnknownMode),
            Some(session) => {
                if args.len() == 1 {
                    Ok(Command { session, filter: ChangeEventType::All })
                } else if !takes_filter(session) || args.len() > 2 {
                    Err(UsageError::TooManyArguments)
                } else {
                    match filter_named(args[1]) {
                        None => Err(UsageError::UnknownFilter),
                        Some(filter) => Ok(Command { session, filter }),
                    }
                }
            },
        }
    }
}

/// The views of the strings of `args`, in order.
pub open spec fn texts_of(args: Seq<String>) -> Seq<Seq<char>> {
    args.map_values(|s: String| s@)
}

/// Whether `text` reads exactly `word`.
fn reads(text: &String, word: &str) -> (same: bool)
    ensures
        same == (text@ == word@),
{
    let owned = word.to_owned();
    *text == owned
}

/// Reads the name of a mode.
pub fn parse_mode(name: &String) -> (mode: Option<SessionKind>)
    ensures
        mode == mode_named(name@),
{
    if reads(name, "snapshot") {
        Some(SessionKind::Snapshot)
    } else if reads(name, "poll") {
        Some(SessionKind::Poll)
    } else if reads(name, "feed") {
        Some(SessionKind::Feed)
    } else if reads(name, "health-check") {
        Some(SessionKind::HealthCheck)
    } else {
        None
    }
}

/// Reads the name of an interest filter.
pub fn parse_filter(name: &String) -> (filter: Option<ChangeEventType>)
    ensures
        filter == filter_named(name@),
{
    if reads(name, "insert") {
        Some(ChangeEventType::Insert)
    } else if reads(name, "update") {
        Some(ChangeEventType::Update)
    } else if reads(name, "all") {
        Some(ChangeEventType::All)
    } else {
        None
    }
}

/// Reads a command line, given without the program's name.
pub fn parse_command(args: &Vec<String>) -> (command: Result<Command, UsageError>)
    ensures
        command == command_of(texts_of(args@)),
{
    if args.len() == 0 {
        return Err(UsageError::MissingMode);
    }
    let session = match parse_mode(&args[0]) {
        Some(session) => session,
        None => {
            return Err(UsageError::UnknownMode);
        },
    };
    if args.len() == 1 {
        return Ok(Command { session, filter: ChangeEventType::All });
    }
    let with_filter = match session {
        SessionKind::Poll | SessionKind::Feed => true,
        _ => false,
    };
    if !with_filter || args.len() > 2 {
        return Err(UsageError::TooManyArguments);
    }
    match parse_filter(&args[1]) {
        Some(filter) => Ok(Command { session, filter }),
        None => Err(UsageError::UnknownFilter),
    }
}

/// A command line that names a known mode and nothing else asks for that
/// session with the filter `all`.
pub proof fn law_filter_defaults_to_all(args: Seq<Seq<char>>)
    requires
        args.len() == 1,
        mode_named(args[0]) is Some,
    ensures
        command_of(args) == Ok::<Command, UsageError>(
            Command { session: mode_named(args[0])->0, filter: ChangeEventType::All },
        ),
{
}

} // verus!
