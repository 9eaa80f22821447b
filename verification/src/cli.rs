//! What a run does with its arguments: store a location under a name, or
//! show the time at the location stored under a name. The instant to show
//! is the caller's to give; for the current time it reads the clock.

use crate::failure::Failure;
use crate::store::DB;
use crate::zone::{format_time, formatted_at, is_expressible};
use vstd::prelude::*;
use vstd::string::StringExecFns;

verus! {

/// What the arguments ask for. The texts are borrowed from the arguments.
#[derive(Clone, Copy, Debug)]
pub enum Command<'a> {
    /// Store `location` under `name`.
    Store { name: &'a str, location: &'a str },
    /// Show the time at the location stored under `name`.
    Show { name: &'a str },
}

/// A command with its texts as sequences of characters.
pub enum CommandView {
    Store { name: Seq<char>, location: Seq<char> },
    Show { name: Seq<char> },
}

impl<'a> View for Command<'a> {
    type V = CommandView;

    open spec fn view(&self) -> CommandView {
        match *self {
            Command::Store { name, location } => CommandView::Store {
                name: name@,
                location: location@,
            },
            Command::Show { name } => CommandView::Show { name: name@ },
        }
    }
}

/// The arguments as sequences of characters.
pub open spec fn texts(args: Seq<String>) -> Seq<Seq<char>> {
    args.map_values(|arg: String| arg@)
}

/// The command that a list of arguments stands for. The first argument is
/// the program's own name. One more is a name to show; two more are a name
/// and the location to store under it; any other number is refused.
pub open spec fn command_for(args: Seq<Seq<char>>) -> Result<CommandView, Failure> {
    if args.len() == 3 {
        Ok(CommandView::Store { name: args[1], location: args[2] })
    } else if args.len() == 2 {
        Ok(CommandView::Show { name: args[1] })
    } else {
        Err(Failure::BadArguments)
    }
}

/// Reads the command from the arguments of the run.
pub fn parse_args<'a>(args: &'a Vec<String>) -> (command: Result<Command<'a>, Failure>)
    ensures
        match command {
            Ok(found) => command_for(texts(args@)) == Ok::<CommandView, Failure>(found@),
            Err(failure) => command_for(texts(args@)) == Err::<CommandView, Failure>(failure),
        },
{
    if args.len() == 3 {
        Ok(Command::Store { name: args[1].as_str(), location: args[2].as_str() })
    } else if args.len() == 2 {
        Ok(Command::Show { name: args[1].as_str() })
    } else {
        Err(Failure::BadArguments)
    }
}

/// The file of the database: `locations.db` directly under the home
/// directory.
pub open spec fn database_path_text(home: Seq<char>) -> Seq<char> {
    home + "/locations.db"@
}

/// The path of the database file for a home directory.
pub fn database_path(home: &str) -> (path: String)
    ensures
        path@ == database_path_text(home@),
{
    String::from_str(home).concat("/locations.db")
}

/// One run on an open store, at the instant `now` in seconds since the start
/// of 1970 in UTC.
///
/// The table is made first, whatever the arguments are. Then a `Store`
/// command stores the location and gives no output, and a `Show` command
/// looks the name up and gives the time at its location as the line to
/// print.
pub fn run(store: &DB, args: &Vec<String>, now: i64) -> (output: Result<Option<String>, Failure>)
    ensures
        match output {
            Ok(None) => command_for(texts(args@)) matches Ok(CommandView::Store { .. }),
            Ok(Some(line)) => command_for(texts(args@)) matches Ok(CommandView::Show { .. })
                && is_expressible(now) && exists|location: Seq<char>| #[trigger]
                formatted_at(location, now) == Ok::<Seq<char>, Failure>(line@),
            Err(Failure::BadArguments) => command_for(texts(args@)) is Err,
            Err(Failure::StorageUnavailable) => true,
            Err(Failure::TimeOutOfRange) => command_for(texts(args@)) matches Ok(
                CommandView::Show { .. },
            ) && !is_expressible(now),
            Err(_) => command_for(texts(args@)) matches Ok(CommandView::Show { .. }),
        },
{
    match store.create_table() {
        Ok(_) => {},
        Err(failure) => {
            return Err(failure);
        },
    }
    match parse_args(args) {
        Ok(Command::Store { name, location }) => match store.set(name, location) {
            Ok(_) => Ok(None),
            Err(failure) => Err(failure),
        },
        Ok(Command::Show { name }) => match store.get(name) {
            Ok(location) => match format_time(location.as_str(), now) {
                Ok(line) => Ok(Some(line)),
                Err(failure) => Err(failure),
            },
            Err(failure) => Err(failure),
        },
        Err(failure) => Err(failure),
    }
}

} // verus!
