//! The command language of the interactive loop: one line of input is split
//! at whitespace, read as a command, and applied to the store, yielding the
//! lines to print and whether the loop ends.

use vstd::prelude::*;
use crate::clock::{
    date_from_text, local_timestamp, local_today, now_timestamp, parse_date, parse_time,
    time_from_text,
};
use crate::store::{added, has_name, removed, retimed, snapshot, Entries, TodoList};
use crate::text::{same_text, split_tokens, texts, tokens};

verus! {

/// A command as read from one input line.
pub enum Command {
    /// `add <name> <date> [time]`; the time defaults to `00:00`.
    Add { name: String, date: String, time: String },
    /// `remove <name>`
    Remove { name: String },
    /// `list`
    List,
    /// `settime <name> <HH:MM>`
    SetTime { name: String, time: String },
    /// `exit`
    Exit,
    /// `add` with fewer than two arguments.
    AddUsage,
    /// `remove` without an argument.
    RemoveUsage,
    /// `settime` with fewer than two arguments.
    SetTimeUsage,
    /// Anything else, an empty line included.
    Invalid,
}

pub enum CommandView {
    Add { name: Seq<char>, date: Seq<char>, time: Seq<char> },
    Remove { name: Seq<char> },
    List,
    SetTime { name: Seq<char>, time: Seq<char> },
    Exit,
    AddUsage,
    RemoveUsage,
    SetTimeUsage,
    Invalid,
}

impl View for Command {
    type V = CommandView;

    open spec fn view(&self) -> CommandView {
        match self {
            Command::Add { name, date, time } => CommandView::Add {
                name: name@,
                date: date@,
                time: time@,
            },
            Command::Remove { name } => CommandView::Remove { name: name@ },
            Command::List => CommandView::List,
            Command::SetTime { name, time } => CommandView::SetTime { name: name@, time: time@ },
            Command::Exit => CommandView::Exit,
            Command::AddUsage => CommandView::AddUsage,
            Command::RemoveUsage => CommandView::RemoveUsage,
            Command::SetTimeUsage => CommandView::SetTimeUsage,
            Command::Invalid => CommandView::Invalid,
        }
    }
}

/// The command that the whitespace-separated words `t` spell; words past
/// those a command takes are ignored.
pub open spec fn command_of(t: Seq<Seq<char>>) -> CommandView {
    if t.len() == 0 {
        CommandView::Invalid
    } else if t[0] == "add"@ {
        if t.len() < 3 {
            CommandView::AddUsage
        } else {
            CommandView::Add {
                name: t[1],
                date: t[2],
                time: if t.len() > 3 {
                    t[3]
                } else {
                    "00:00"@
                },
            }
        }
    } else if t[0] == "remove"@ {
        if t.len() < 2 {
            CommandView::RemoveUsage
        } else {
            CommandView::Remove { name: t[1] }
        }
    } else if t[0] == "list"@ {
        CommandView::List
    } else if t[0] == "settime"@ {
        if t.len() < 3 {
            CommandView::SetTimeUsage
        } else {
            CommandView::SetTime { name: t[1], time: t[2] }
        }
    } else if t[0] == "exit"@ {
        CommandView::Exit
    } else {
        CommandView::Invalid
    }
}

/// Reads the command on one input line.
pub fn parse_command(line: &str) -> (r: Command)
    ensures
        r@ == command_of(tokens(line@)),
{
    let words = split_tokens(line);
    let ghost t = tokens(line@);
    assert(forall|i: int| 0 <= i < words@.len() ==> #[trigger] words@[i]@ == t[i]) by {
        assert(forall|i: int| 0 <= i < words@.len() ==> #[trigger] texts(words@)[i] == words@[i]@);
    }
    let n = words.len();
    if n == 0 {
        return Command::Invalid;
    }
    let head = words[0].as_str();
    if same_text(head, "add") {
        if n < 3 {
            Command::AddUsage
        } else {
            let time = if n > 3 {
                words[3].clone()
            } else {
                String::from_str("00:00")
            };
            Command::Add { name: words[1].clone(), date: words[2].clone(), time }
        }
    } else if same_text(head, "remove") {
        if n < 2 {
            Command::RemoveUsage
        } else {
            Command::Remove { name: words[1].clone() }
        }
    } else if same_text(head, "list") {
        Command::List
    } else if same_text(head, "settime") {
        if n < 3 {
            Command::SetTimeUsage
        } else {
            Command::SetTime { name: words[1].clone(), time: words[2].clone() }
        }
    } else if same_text(head, "exit") {
        Command::Exit
    } else {
        Command::Invalid
    }
}

/// Why a date or time given on the command line yields no instant.
#[derive(PartialEq, Eq, Structural, Debug, Clone, Copy)]
pub enum InputError {
    /// The date is not of the form `YYYY-MM-DD`.
    BadDate,
    /// The time is not of the form `HH:MM`.
    BadTime,
    /// The wall-clock reading does not name exactly one instant in the local
    /// time zone.
    NoSuchLocalTime,
}

pub open spec fn input_error_text(e: InputError) -> Seq<char> {
    match e {
        InputError::BadDate => "Invalid date format. Please use YYYY-MM-DD."@,
        InputError::BadTime => "Invalid time format. Please use HH:MM."@,
        InputError::NoSuchLocalTime => "No such local date and time."@,
    }
}

impl InputError {
    pub fn message(&self) -> (r: &'static str)
        ensures
            r@ == input_error_text(*self),
    {
        match self {
            InputError::BadDate => "Invalid date format. Please use YYYY-MM-DD.",
            InputError::BadTime => "Invalid time format. Please use HH:MM.",
            InputError::NoSuchLocalTime => "No such local date and time.",
        }
    }
}

/// The instant of local date `date` (`YYYY-MM-DD`) at local time `time`
/// (`HH:MM`). The date is checked before the time.
pub fn due_at(date: &str, time: &str) -> (r: Result<i64, InputError>)
    ensures
        date_from_text(date@, "%Y-%m-%d"@) is None ==> r == Err::<i64, InputError>(
            InputError::BadDate,
        ),
        date_from_text(date@, "%Y-%m-%d"@) is Some && time_from_text(time@, "%H:%M"@) is None
            ==> r == Err::<i64, InputError>(InputError::BadTime),
        date_from_text(date@, "%Y-%m-%d"@) is Some && time_from_text(time@, "%H:%M"@) is Some
            ==> (r is Ok || r == Err::<i64, InputError>(InputError::NoSuchLocalTime)),
{
    let d = match parse_date(date, "%Y-%m-%d") {
        Some(d) => d,
        None => return Err(InputError::BadDate),
    };
    let t = match parse_time(time, "%H:%M") {
        Some(t) => t,
        None => return Err(InputError::BadTime),
    };
    match local_timestamp(d, t) {
        Some(due) => Ok(due),
        None => Err(InputError::NoSuchLocalTime),
    }
}

/// The instant of today's local date at local time `time` (`HH:MM`).
pub fn due_today_at(time: &str) -> (r: Result<i64, InputError>)
    ensures
        time_from_text(time@, "%H:%M"@) is None ==> r == Err::<i64, InputError>(
            InputError::BadTime,
        ),
        time_from_text(time@, "%H:%M"@) is Some ==> (r is Ok || r == Err::<i64, InputError>(
            InputError::NoSuchLocalTime,
        )),
{
    let t = match parse_time(time, "%H:%M") {
        Some(t) => t,
        None => return Err(InputError::BadTime),
    };
    match local_timestamp(local_today(), t) {
        Some(due) => Ok(due),
        None => Err(InputError::NoSuchLocalTime),
    }
}

/// What `list` prints: every item's line, or `No items.` for an empty store.
pub open spec fn listing(s: Entries, now: i64) -> Seq<Seq<char>> {
    if s.len() == 0 {
        seq!["No items."@]
    } else {
        snapshot(s, now)
    }
}

/// The lines that `list` prints at clock reading `now`.
pub fn list_lines(list: &TodoList, now: i64) -> (r: Vec<String>)
    ensures
        texts(r@) == listing(list@, now),
{
    let lines = list.items_at(now);
    if lines.len() == 0 {
        single_line("No items.")
    } else {
        lines
    }
}

fn single_line(msg: &str) -> (r: Vec<String>)
    ensures
        texts(r@) == seq![msg@],
{
    let mut v: Vec<String> = Vec::new();
    v.push(String::from_str(msg));
    assert(texts(v@) =~= seq![msg@]);
    v
}

/// What one input line produced: the lines to print, and whether the loop
/// ends.
pub struct Outcome {
    pub lines: Vec<String>,
    pub exit: bool,
}

/// Effect of `add`: the store after it and the lines printed.
pub open spec fn add_effect(
    s: Entries,
    t: Entries,
    out: Seq<Seq<char>>,
    name: Seq<char>,
    date: Seq<char>,
    time: Seq<char>,
) -> bool {
    if date_from_text(date, "%Y-%m-%d"@) is None {
        t == s && out == seq![input_error_text(InputError::BadDate)]
    } else if time_from_text(time, "%H:%M"@) is None {
        t == s && out == seq![input_error_text(InputError::BadTime)]
    } else {
        ||| (exists|due: i64| t == added(s, name, due)) && out == seq!["Item added."@]
        ||| t == s && out == seq![input_error_text(InputError::NoSuchLocalTime)]
    }
}

/// Effect of `settime`: the store after it and the lines printed.
pub open spec fn settime_effect(
    s: Entries,
    t: Entries,
    out: Seq<Seq<char>>,
    name: Seq<char>,
    time: Seq<char>,
) -> bool {
    if time_from_text(time, "%H:%M"@) is None {
        t == s && out == seq![input_error_text(InputError::BadTime)]
    } else if !has_name(s, name) {
        ||| t == s && out == seq!["Item not found."@]
        ||| t == s && out == seq![input_error_text(InputError::NoSuchLocalTime)]
    } else {
        ||| (exists|due: i64| t == retimed(s, name, due)) && out == seq!["Due time updated."@]
        ||| t == s && out == seq![input_error_text(InputError::NoSuchLocalTime)]
    }
}

/// Effect of a command on the store `s`, giving store `t`, printed lines
/// `out`, and whether the loop ends.
pub open spec fn command_effect(
    c: CommandView,
    s: Entries,
    t: Entries,
    out: Seq<Seq<char>>,
    exit: bool,
) -> bool {
    &&& exit == (c is Exit)
    &&& match c {
        CommandView::Add { name, date, time } => add_effect(s, t, out, name, date, time),
        CommandView::Remove { name } => t == removed(s, name) && out == seq!["Item removed."@],
        CommandView::List => t == s && exists|now: i64| out == listing(s, now),
        CommandView::SetTime { name, time } => settime_effect(s, t, out, name, time),
        CommandView::Exit => t == s && out == seq!["Exiting program..."@],
        CommandView::AddUsage => t == s && out == seq![
            "Invalid command. Usage: add <name> <date> <time>"@,
        ],
        CommandView::RemoveUsage => t == s && out == seq!["Invalid command. Usage: remove <name>"@],
        CommandView::SetTimeUsage => t == s && out == seq![
            "Invalid command. Usage: settime <name> <HH:MM>"@,
        ],
        CommandView::Invalid => t == s && out == seq!["Invalid command."@],
    }
}

/// Reads one input line as a command and applies it to `list`.
pub fn execute(list: &mut TodoList, line: &str) -> (r: Outcome)
    requires
        old(list).wf(),
    ensures
        final(list).wf(),
        command_effect(command_of(tokens(line@)), old(list)@, final(list)@, texts(r.lines@), r.exit),
{
    let cmd = parse_command(line);
    match cmd {
        Command::Add { name, date, time } => {
            let lines = match due_at(date.as_str(), time.as_str()) {
                Ok(due) => {
                    list.add_item(name.as_str(), due);
                    single_line("Item added.")
                },
                Err(e) => single_line(e.message()),
            };
            Outcome { lines, exit: false }
        },
        Command::Remove { name } => {
            list.remove_item(name.as_str());
            Outcome { lines: single_line("Item removed."), exit: false }
        },
        Command::List => {
            let now = now_timestamp();
            Outcome { lines: list_lines(list, now), exit: false }
        },
        Command::SetTime { name, time } => {
            let lines = match due_today_at(time.as_str()) {
                Ok(due) => match list.set_item_time(name.as_str(), due) {
                    Ok(()) => single_line("Due time updated."),
                    Err(e) => single_line(e.message()),
                },
                Err(e) => single_line(e.message()),
            };
            Outcome { lines, exit: false }
        },
        Command::Exit => Outcome { lines: single_line("Exiting program..."), exit: true },
        Command::AddUsage => Outcome {
            lines: single_line("Invalid command. Usage: add <name> <date> <time>"),
            exit: false,
        },
        Command::RemoveUsage => Outcome {
            lines: single_line("Invalid command. Usage: remove <name>"),
            exit: false,
        },
        Command::SetTimeUsage => Outcome {
            lines: single_line("Invalid command. Usage: settime <name> <HH:MM>"),
            exit: false,
        },
        Command::Invalid => Outcome { lines: single_line("Invalid command."), exit: false },
    }
}

} // verus!
