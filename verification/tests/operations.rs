use rusty_todo::ident::{fresh_id, generate_id};
use rusty_todo::ops::restore_task;
use rusty_todo::{
    add_task, add_task_seeded, complete_task, delete_task, edit_task, find_task, uncomplete_task,
    Task, TodoError,
};

fn task(id: &str, description: &str, completed: bool) -> Task {
    Task { id: id.to_string(), description: description.to_string(), completed }
}

fn three() -> Vec<Task> {
    vec![task("a", "buy milk", false), task("b", "walk dog", true), task("c", "pay rent", false)]
}

fn triples(tasks: &Vec<Task>) -> Vec<(String, String, bool)> {
    tasks.iter().map(|t| (t.id.clone(), t.description.clone(), t.completed)).collect()
}

fn expect_not_found(result: Result<(), TodoError>, id: &str) {
    match result {
        Err(TodoError::TaskNotFound(missing)) => assert_eq!(missing, id),
        _ => panic!("expected TaskNotFound"),
    }
}

#[test]
fn add_appends_an_open_task() {
    let mut tasks: Vec<Task> = Vec::new();
    add_task(&mut tasks, "buy milk".to_string());
    assert_eq!(tasks.len(), 1);
    assert_eq!(tasks[0].description, "buy milk");
    assert!(!tasks[0].completed);
    assert!(!tasks[0].id.is_empty());
}

#[test]
fn add_grows_by_one_and_keeps_the_others() {
    let mut tasks = three();
    let before = triples(&tasks);
    add_task(&mut tasks, "call mum".to_string());
    assert_eq!(tasks.len(), 4);
    assert_eq!(triples(&tasks)[..3], before[..]);
    assert_eq!(tasks[3].description, "call mum");
    assert!(!tasks[3].completed);
    assert!(!tasks[3].id.is_empty());
    assert!(before.iter().all(|(id, _, _)| *id != tasks[3].id));
}

#[test]
fn added_tasks_get_different_ids() {
    let mut tasks: Vec<Task> = Vec::new();
    for n in 0..50 {
        add_task(&mut tasks, format!("task {}", n));
    }
    for i in 0..tasks.len() {
        for j in (i + 1)..tasks.len() {
            assert_ne!(tasks[i].id, tasks[j].id);
        }
    }
}

#[test]
fn seeded_add_takes_a_usable_seed_as_it_is() {
    let mut tasks = three();
    add_task_seeded(&mut tasks, "d".to_string(), "call mum".to_string());
    assert_eq!(
        triples(&tasks)[3],
        ("d".to_string(), "call mum".to_string(), false)
    );
}

#[test]
fn seeded_add_pads_a_seed_that_is_taken() {
    let mut tasks = vec![task("a", "one", false), task("a0", "two", false)];
    add_task_seeded(&mut tasks, "a".to_string(), "three".to_string());
    assert_eq!(tasks.len(), 3);
    assert_eq!(tasks[2].id, "a00");
    assert_eq!(tasks[2].description, "three");
    assert!(!tasks[2].completed);
}

#[test]
fn fresh_id_of_an_empty_seed_is_one_zero() {
    let tasks: Vec<Task> = Vec::new();
    assert_eq!(fresh_id(&tasks, String::new()), "0");
}

#[test]
fn fresh_id_keeps_a_seed_that_no_task_carries() {
    assert_eq!(fresh_id(&three(), "x-1".to_string()), "x-1");
}

#[test]
fn fresh_id_skips_every_taken_padding() {
    let tasks = vec![task("0", "one", false), task("00", "two", false), task("000", "three", true)];
    assert_eq!(fresh_id(&tasks, String::new()), "0000");
    assert_eq!(fresh_id(&tasks, "0".to_string()), "0000");
    assert_eq!(fresh_id(&tasks, "1".to_string()), "1");
}

#[test]
fn generated_ids_are_new_and_differ() {
    let tasks = three();
    let first = generate_id(&tasks);
    let second = generate_id(&tasks);
    assert!(!first.is_empty());
    assert!(!second.is_empty());
    assert_ne!(first, second);
    assert!(tasks.iter().all(|t| t.id != first && t.id != second));
}

#[test]
fn find_gives_the_first_place() {
    let tasks = vec![task("a", "one", false), task("b", "two", false), task("b", "three", false)];
    assert_eq!(find_task(&tasks, &"a".to_string()), Some(0));
    assert_eq!(find_task(&tasks, &"b".to_string()), Some(1));
    assert_eq!(find_task(&tasks, &"c".to_string()), None);
    assert_eq!(find_task(&Vec::new(), &"a".to_string()), None);
}

#[test]
fn complete_sets_the_flag_of_that_task_only() {
    let mut tasks = three();
    assert!(complete_task(&mut tasks, "c".to_string()).is_ok());
    assert_eq!(
        triples(&tasks),
        vec![
            ("a".to_string(), "buy milk".to_string(), false),
            ("b".to_string(), "walk dog".to_string(), true),
            ("c".to_string(), "pay rent".to_string(), true),
        ]
    );
}

#[test]
fn complete_of_a_done_task_leaves_it_done() {
    let mut tasks = three();
    assert!(complete_task(&mut tasks, "b".to_string()).is_ok());
    assert_eq!(triples(&tasks), triples(&three()));
}

#[test]
fn uncomplete_clears_the_flag_of_that_task_only() {
    let mut tasks = three();
    assert!(uncomplete_task(&mut tasks, "b".to_string()).is_ok());
    assert_eq!(
        triples(&tasks),
        vec![
            ("a".to_string(), "buy milk".to_string(), false),
            ("b".to_string(), "walk dog".to_string(), false),
            ("c".to_string(), "pay rent".to_string(), false),
        ]
    );
}

#[test]
fn complete_then_uncomplete_restores_an_open_task() {
    let mut tasks = three();
    assert!(complete_task(&mut tasks, "a".to_string()).is_ok());
    assert!(tasks[0].completed);
    assert!(uncomplete_task(&mut tasks, "a".to_string()).is_ok());
    assert_eq!(triples(&tasks), triples(&three()));
}

#[test]
fn complete_then_uncomplete_leaves_a_done_task_open() {
    let mut tasks = three();
    assert!(complete_task(&mut tasks, "b".to_string()).is_ok());
    assert!(uncomplete_task(&mut tasks, "b".to_string()).is_ok());
    assert!(!tasks[1].completed);
    assert_eq!(tasks[1].id, "b");
    assert_eq!(tasks[1].description, "walk dog");
}

#[test]
fn edit_replaces_the_description_of_that_task_only() {
    let mut tasks = three();
    assert!(edit_task(&mut tasks, "b".to_string(), "new text".to_string()).is_ok());
    assert_eq!(
        triples(&tasks),
        vec![
            ("a".to_string(), "buy milk".to_string(), false),
            ("b".to_string(), "new text".to_string(), true),
            ("c".to_string(), "pay rent".to_string(), false),
        ]
    );
}

#[test]
fn delete_removes_that_task_and_keeps_the_order() {
    let mut tasks = three();
    assert!(delete_task(&mut tasks, "a".to_string()).is_ok());
    assert_eq!(
        triples(&tasks),
        vec![
            ("b".to_string(), "walk dog".to_string(), true),
            ("c".to_string(), "pay rent".to_string(), false),
        ]
    );
    assert!(delete_task(&mut tasks, "c".to_string()).is_ok());
    assert_eq!(triples(&tasks), vec![("b".to_string(), "walk dog".to_string(), true)]);
    assert!(delete_task(&mut tasks, "b".to_string()).is_ok());
    assert!(tasks.is_empty());
}

#[test]
fn delete_leaves_the_other_ids() {
    let mut tasks = three();
    assert!(delete_task(&mut tasks, "b".to_string()).is_ok());
    let mut ids: Vec<String> = tasks.iter().map(|t| t.id.clone()).collect();
    ids.sort();
    assert_eq!(ids, vec!["a".to_string(), "c".to_string()]);
}

#[test]
fn a_deleted_id_is_gone() {
    let mut tasks = three();
    assert!(delete_task(&mut tasks, "b".to_string()).is_ok());
    expect_not_found(delete_task(&mut tasks, "b".to_string()), "b");
    expect_not_found(complete_task(&mut tasks, "b".to_string()), "b");
}

#[test]
fn the_first_of_two_equal_ids_is_taken() {
    let mut tasks = vec![task("a", "one", false), task("a", "two", false)];
    assert!(complete_task(&mut tasks, "a".to_string()).is_ok());
    assert!(tasks[0].completed);
    assert!(!tasks[1].completed);
    assert!(edit_task(&mut tasks, "a".to_string(), "uno".to_string()).is_ok());
    assert_eq!(tasks[0].description, "uno");
    assert_eq!(tasks[1].description, "two");
    assert!(delete_task(&mut tasks, "a".to_string()).is_ok());
    assert_eq!(triples(&tasks), vec![("a".to_string(), "two".to_string(), false)]);
}

#[test]
fn complete_of_a_missing_id_fails() {
    let mut tasks = three();
    expect_not_found(complete_task(&mut tasks, "nonexistent-id".to_string()), "nonexistent-id");
    assert_eq!(triples(&tasks), triples(&three()));
}

#[test]
fn uncomplete_of_a_missing_id_fails() {
    let mut tasks = three();
    expect_not_found(uncomplete_task(&mut tasks, "zz".to_string()), "zz");
    assert_eq!(triples(&tasks), triples(&three()));
}

#[test]
fn delete_of_a_missing_id_fails() {
    let mut tasks = three();
    expect_not_found(delete_task(&mut tasks, "zz".to_string()), "zz");
    assert_eq!(triples(&tasks), triples(&three()));
}

#[test]
fn edit_of_a_missing_id_fails() {
    let mut tasks = three();
    expect_not_found(edit_task(&mut tasks, "zz".to_string(), "new text".to_string()), "zz");
    assert_eq!(triples(&tasks), triples(&three()));
}

#[test]
fn every_operation_fails_on_an_empty_collection() {
    let mut tasks: Vec<Task> = Vec::new();
    expect_not_found(complete_task(&mut tasks, "a".to_string()), "a");
    expect_not_found(uncomplete_task(&mut tasks, "a".to_string()), "a");
    expect_not_found(delete_task(&mut tasks, "a".to_string()), "a");
    expect_not_found(edit_task(&mut tasks, "a".to_string(), "x".to_string()), "a");
    expect_not_found(complete_task(&mut tasks, String::new()), "");
    assert!(tasks.is_empty());
}

#[test]
fn ids_are_compared_as_a_whole() {
    let mut tasks = vec![task("ab", "one", false)];
    expect_not_found(complete_task(&mut tasks, "a".to_string()), "a");
    expect_not_found(complete_task(&mut tasks, "abc".to_string()), "abc");
    expect_not_found(complete_task(&mut tasks, "AB".to_string()), "AB");
    assert!(complete_task(&mut tasks, "ab".to_string()).is_ok());
}

#[test]
fn restore_keeps_a_stored_id() {
    let mut tasks = three();
    restore_task(&mut tasks, Some("b".to_string()), "again".to_string(), true);
    assert_eq!(tasks.len(), 4);
    assert_eq!(triples(&tasks)[..3], triples(&three())[..]);
    assert_eq!(triples(&tasks)[3], ("b".to_string(), "again".to_string(), true));
}

#[test]
fn restore_gives_an_id_where_none_was_stored() {
    let mut tasks = three();
    restore_task(&mut tasks, None, "old one".to_string(), true);
    assert_eq!(tasks.len(), 4);
    assert_eq!(tasks[3].description, "old one");
    assert!(tasks[3].completed);
    assert!(!tasks[3].id.is_empty());
    assert!(three().iter().all(|t| t.id != tasks[3].id));
}

#[test]
fn a_clone_is_the_same_task() {
    let first = task("a", "buy milk", true);
    let copy = first.clone();
    assert_eq!(copy.id, "a");
    assert_eq!(copy.description, "buy milk");
    assert!(copy.completed);
}
