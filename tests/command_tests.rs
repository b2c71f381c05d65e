use todo_list::command::{
    due_at, due_today_at, execute, list_lines, parse_command, Command, InputError,
};
use todo_list::store::TodoList;

fn run(list: &mut TodoList, line: &str) -> Vec<String> {
    let out = execute(list, line);
    assert!(!out.exit);
    out.lines
}

fn minutes_in(line: &str) -> u64 {
    let start = line.find("(due in ").unwrap() + "(due in ".len();
    let end = line.find(" minutes)").unwrap();
    line[start..end].parse().unwrap()
}

#[test]
fn parse_add_with_default_time() {
    match parse_command("add alice 2999-01-01") {
        Command::Add { name, date, time } => {
            assert_eq!(name, "alice");
            assert_eq!(date, "2999-01-01");
            assert_eq!(time, "00:00");
        }
        _ => panic!("expected add"),
    }
}

#[test]
fn parse_add_with_time_and_extra_words() {
    match parse_command(" add  bob 2000-01-01 07:30 trailing") {
        Command::Add { name, date, time } => {
            assert_eq!(name, "bob");
            assert_eq!(date, "2000-01-01");
            assert_eq!(time, "07:30");
        }
        _ => panic!("expected add"),
    }
}

#[test]
fn parse_usage_errors() {
    assert!(matches!(parse_command("add alice"), Command::AddUsage));
    assert!(matches!(parse_command("remove"), Command::RemoveUsage));
    assert!(matches!(parse_command("settime alice"), Command::SetTimeUsage));
}

#[test]
fn parse_simple_commands() {
    assert!(matches!(parse_command("list"), Command::List));
    assert!(matches!(parse_command("exit"), Command::Exit));
    assert!(matches!(parse_command(""), Command::Invalid));
    assert!(matches!(parse_command("foo bar"), Command::Invalid));
    assert!(matches!(parse_command("LIST"), Command::Invalid));
    match parse_command("remove alice") {
        Command::Remove { name } => assert_eq!(name, "alice"),
        _ => panic!("expected remove"),
    }
    match parse_command("settime alice 23:59") {
        Command::SetTime { name, time } => {
            assert_eq!(name, "alice");
            assert_eq!(time, "23:59");
        }
        _ => panic!("expected settime"),
    }
}

#[test]
fn date_and_time_errors() {
    assert_eq!(due_at("01/01/2000", "00:00"), Err(InputError::BadDate));
    assert_eq!(due_at("2000-13-01", "00:00"), Err(InputError::BadDate));
    assert_eq!(due_at("2000-01-01", "25:00"), Err(InputError::BadTime));
    assert_eq!(due_at("2000-01-01", "noon"), Err(InputError::BadTime));
    assert_eq!(due_today_at("9am"), Err(InputError::BadTime));
    assert_eq!(InputError::BadDate.message(), "Invalid date format. Please use YYYY-MM-DD.");
    assert_eq!(InputError::BadTime.message(), "Invalid time format. Please use HH:MM.");
}

#[test]
fn due_at_gives_unix_time() {
    let past = due_at("2000-01-01", "00:00").unwrap();
    let future = due_at("2999-01-01", "09:00").unwrap();
    // 2000-01-01T00:00Z is 946684800; local offsets lie within a day of it.
    assert!((past - 946_684_800).abs() <= 86_400);
    assert!(future > past);
    let later = due_at("2999-01-01", "10:00").unwrap();
    assert_eq!(later - future, 3_600);
}

#[test]
fn due_today_is_within_a_day_of_now() {
    let now = chrono::Utc::now().timestamp();
    let midnight = due_today_at("00:00").unwrap();
    let last_minute = due_today_at("23:59").unwrap();
    assert!((midnight - now).abs() <= 2 * 86_400);
    assert!(last_minute > midnight);
}

#[test]
fn list_of_empty_store() {
    let list = TodoList::new();
    assert_eq!(list_lines(&list, 0), vec!["No items."]);
}

#[test]
fn add_far_future_then_list() {
    let mut list = TodoList::new();
    assert_eq!(run(&mut list, "add alice 2999-01-01 09:00"), vec!["Item added."]);
    let lines = run(&mut list, "list");
    assert_eq!(lines.len(), 1);
    assert!(lines[0].starts_with("alice (due in "));
    assert!(!lines[0].contains("OVERDUE"));
    assert!(!lines[0].contains("DUE SOON"));
    assert!(minutes_in(&lines[0]) > 400_000_000);
}

#[test]
fn add_past_then_list_is_overdue() {
    let mut list = TodoList::new();
    assert_eq!(run(&mut list, "add bob 2000-01-01 00:00"), vec!["Item added."]);
    assert_eq!(run(&mut list, "list"), vec!["bob OVERDUE (due in 0 minutes)"]);
}

#[test]
fn settime_then_remove_then_list_is_empty() {
    let mut list = TodoList::new();
    run(&mut list, "add alice 2999-01-01 09:00");
    assert_eq!(run(&mut list, "settime alice 23:59"), vec!["Due time updated."]);
    assert_eq!(run(&mut list, "remove alice"), vec!["Item removed."]);
    assert_eq!(run(&mut list, "list"), vec!["No items."]);
}

#[test]
fn settime_unknown_name() {
    let mut list = TodoList::new();
    assert_eq!(run(&mut list, "settime carol 10:00"), vec!["Item not found."]);
    assert_eq!(run(&mut list, "list"), vec!["No items."]);
}

#[test]
fn unrecognized_input() {
    let mut list = TodoList::new();
    assert_eq!(run(&mut list, "foo bar"), vec!["Invalid command."]);
    assert_eq!(run(&mut list, ""), vec!["Invalid command."]);
}

#[test]
fn usage_and_format_messages() {
    let mut list = TodoList::new();
    assert_eq!(
        run(&mut list, "add alice"),
        vec!["Invalid command. Usage: add <name> <date> <time>"]
    );
    assert_eq!(run(&mut list, "remove"), vec!["Invalid command. Usage: remove <name>"]);
    assert_eq!(
        run(&mut list, "settime alice"),
        vec!["Invalid command. Usage: settime <name> <HH:MM>"]
    );
    assert_eq!(
        run(&mut list, "add alice 2999/01/01"),
        vec!["Invalid date format. Please use YYYY-MM-DD."]
    );
    assert_eq!(
        run(&mut list, "add alice 2999-01-01 9h"),
        vec!["Invalid time format. Please use HH:MM."]
    );
    assert_eq!(
        run(&mut list, "settime alice 24:00"),
        vec!["Invalid time format. Please use HH:MM."]
    );
    assert_eq!(run(&mut list, "list"), vec!["No items."]);
}

#[test]
fn exit_ends_the_loop() {
    let mut list = TodoList::new();
    let out = execute(&mut list, "exit");
    assert!(out.exit);
    assert_eq!(out.lines, vec!["Exiting program..."]);
}
