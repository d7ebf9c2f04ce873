use rusty_todo::{parse_args, Command};

fn line(words: &[&str]) -> Vec<String> {
    words.iter().map(|w| w.to_string()).collect()
}

fn complaint(words: &[&str]) -> String {
    match parse_args(&line(words)) {
        Err(text) => text,
        Ok(_) => panic!("expected a complaint"),
    }
}

#[test]
fn a_line_without_a_command_is_refused() {
    assert_eq!(complaint(&[]), "Invalid command.");
    assert_eq!(complaint(&["todo"]), "Invalid command.");
}

#[test]
fn list_is_read() {
    assert!(matches!(parse_args(&line(&["todo", "list"])), Ok(Command::List)));
    assert!(matches!(parse_args(&line(&["todo", "list", "more"])), Ok(Command::List)));
}

#[test]
fn version_has_three_spellings() {
    assert!(matches!(parse_args(&line(&["todo", "version"])), Ok(Command::Version)));
    assert!(matches!(parse_args(&line(&["todo", "-v"])), Ok(Command::Version)));
    assert!(matches!(parse_args(&line(&["todo", "--version"])), Ok(Command::Version)));
}

#[test]
fn add_takes_a_description() {
    match parse_args(&line(&["todo", "add", "buy milk"])) {
        Ok(Command::Add(description)) => assert_eq!(description, "buy milk"),
        _ => panic!("expected Add"),
    }
    assert_eq!(complaint(&["todo", "add"]), "Error: 'add' command requires a description.");
}

#[test]
fn done_takes_an_id() {
    match parse_args(&line(&["todo", "done", "a-1"])) {
        Ok(Command::Complete(id)) => assert_eq!(id, "a-1"),
        _ => panic!("expected Complete"),
    }
    assert_eq!(complaint(&["todo", "done"]), "Error: 'done' command requires a task ID.");
}

#[test]
fn undone_takes_an_id() {
    match parse_args(&line(&["todo", "undone", "a-1"])) {
        Ok(Command::Uncomplete(id)) => assert_eq!(id, "a-1"),
        _ => panic!("expected Uncomplete"),
    }
    assert_eq!(complaint(&["todo", "undone"]), "Error: 'undone' command requires a task ID.");
}

#[test]
fn delete_takes_an_id() {
    match parse_args(&line(&["todo", "delete", "a-1"])) {
        Ok(Command::Delete(id)) => assert_eq!(id, "a-1"),
        _ => panic!("expected Delete"),
    }
    assert_eq!(complaint(&["todo", "delete"]), "Error: 'delete' command requires a task ID.");
}

#[test]
fn edit_takes_an_id_and_a_description() {
    match parse_args(&line(&["todo", "edit", "a-1", "new text", "ignored"])) {
        Ok(Command::Edit(id, description)) => {
            assert_eq!(id, "a-1");
            assert_eq!(description, "new text");
        }
        _ => panic!("expected Edit"),
    }
    assert_eq!(complaint(&["todo", "edit"]), "Error: 'edit' command requires a task ID.");
    assert_eq!(
        complaint(&["todo", "edit", "a-1"]),
        "Error: 'edit' command requires a new description."
    );
}

#[test]
fn an_unknown_word_is_refused() {
    assert_eq!(complaint(&["todo", "frobnicate"]), "Error: Unknown command 'frobnicate'");
    assert_eq!(complaint(&["todo", ""]), "Error: Unknown command ''");
    assert_eq!(complaint(&["todo", "List"]), "Error: Unknown command 'List'");
    assert_eq!(complaint(&["todo", "lis"]), "Error: Unknown command 'lis'");
    assert_eq!(complaint(&["todo", "listing", "list"]), "Error: Unknown command 'listing'");
}

#[test]
fn the_first_word_is_not_looked_at() {
    assert!(matches!(parse_args(&line(&["list", "version"])), Ok(Command::Version)));
    assert!(matches!(parse_args(&line(&["", "list"])), Ok(Command::List)));
}
