use qx::banner;
use qx::cli::{AppStatusCode, Args, ArgsCommand};
use qx::stateful_list::{handle_key, Choice, KeyPress, StatefulList};

fn three_lines() -> StatefulList {
    StatefulList::new(vec!["a".to_string(), "b".to_string(), "c".to_string()])
}

#[test]
fn selection_starts_empty_and_wraps_both_ways() {
    let mut list = three_lines();
    assert_eq!(list.selected_index(), None);

    list.select_first_if_exists();
    assert_eq!(list.selected_index(), Some(0));

    list.select_next();
    list.select_next();
    assert_eq!(list.selected_index(), Some(2));
    list.select_next();
    assert_eq!(list.selected_index(), Some(0));

    list.select_previous();
    assert_eq!(list.selected_index(), Some(2));
    list.select_previous();
    assert_eq!(list.selected_index(), Some(1));
}

#[test]
fn moving_without_selection_selects_the_first_line() {
    let mut list = three_lines();
    list.select_next();
    assert_eq!(list.selected_index(), Some(0));

    let mut list = three_lines();
    list.select_previous();
    assert_eq!(list.selected_index(), Some(0));
}

#[test]
fn empty_list_never_selects() {
    let mut list = StatefulList::new(Vec::new());
    list.select_first_if_exists();
    assert_eq!(list.selected_index(), None);
    list.select_next();
    assert_eq!(list.selected_index(), None);
    list.select_previous();
    assert_eq!(list.selected_index(), None);
}

#[test]
fn iter_returns_the_lines_in_order() {
    let list = three_lines();
    assert_eq!(list.iter(), vec!["a".to_string(), "b".to_string(), "c".to_string()]);
}

#[test]
fn keys_drive_the_selector() {
    let mut list = three_lines();
    assert_eq!(handle_key(&mut list, KeyPress::Enter), Choice::Continue);

    assert_eq!(handle_key(&mut list, KeyPress::Down), Choice::Continue);
    assert_eq!(list.selected_index(), Some(0));
    assert_eq!(handle_key(&mut list, KeyPress::Down), Choice::Continue);
    assert_eq!(list.selected_index(), Some(1));
    assert_eq!(handle_key(&mut list, KeyPress::Up), Choice::Continue);
    assert_eq!(list.selected_index(), Some(0));

    assert_eq!(handle_key(&mut list, KeyPress::Enter), Choice::Boot(0));
    assert_eq!(handle_key(&mut list, KeyPress::Other), Choice::Continue);
    assert_eq!(handle_key(&mut list, KeyPress::QuitKey), Choice::Quit);
    assert_eq!(list.selected_index(), Some(0));
}

fn args(edit: bool, interactive: bool, environment: Option<&str>) -> Args {
    Args {
        configuration_path: None,
        edit,
        interactive,
        verbose: false,
        environment: environment.map(|s| s.to_string()),
    }
}

#[test]
fn edit_flag_wins_over_everything() {
    assert!(matches!(args(true, true, Some("dev")).command(), ArgsCommand::Edit));
    assert!(matches!(args(true, false, None).command(), ArgsCommand::Edit));
}

#[test]
fn interactive_flag_comes_second() {
    assert!(matches!(args(false, true, Some("dev")).command(), ArgsCommand::Interactive));
}

#[test]
fn plain_arguments_mean_boot() {
    match args(false, false, Some("dev")).command() {
        ArgsCommand::Boot(Some(name)) => assert_eq!(name, "dev"),
        _ => panic!("expected a boot command with a filter"),
    }
    assert!(matches!(args(false, false, None).command(), ArgsCommand::Boot(None)));
}

#[test]
fn status_codes_are_stable() {
    assert_eq!(AppStatusCode::Success.as_code(), 0);
    assert_eq!(AppStatusCode::Error.as_code(), 1);
}

#[test]
fn banner_shows_the_name_art() {
    let text = banner();
    assert!(text.contains("/'__`\\ /\\ \\/'\\"));
    assert!(text.contains("v. 0.1.0"));
}
