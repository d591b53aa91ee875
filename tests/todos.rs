use todui::text::{find_first, trim_text};
use todui::clock::Stamp;
use todui::todos::{Todo, TodoErrors, TodoList};

fn stamp(secs: i64) -> Stamp {
    Stamp { secs, nanos: 0, offset_secs: 3600 }
}

fn list_of(names: &[&str]) -> TodoList {
    let mut l = TodoList::create_new("work".to_string(), Some("/tmp/work.json".to_string()));
    for (i, n) in names.iter().enumerate() {
        l.add(Todo::new_at(n.to_string(), None, false, stamp(i as i64)).unwrap()).unwrap();
    }
    l
}

fn names(l: &TodoList) -> Vec<String> {
    l.list.iter().map(|t| t.name.clone()).collect()
}

#[test]
fn add_to_empty_list_gives_one_open_todo() {
    let mut l = TodoList::create_new("work".to_string(), Some("/tmp/work.json".to_string()));
    assert_eq!(l.add(Todo::new("Write report".to_string(), None, false).unwrap()), Ok(()));
    assert_eq!(l.list.len(), 1);
    assert_eq!(l.list[0].name, "Write report");
    assert!(!l.list[0].completed);
    assert_eq!(l.list[0].date_completed, None);
    assert_eq!(l.list[0].description, None);
}

#[test]
fn new_todo_is_stamped_with_the_clock() {
    let t = Todo::new("a".to_string(), Some("b".to_string()), true).unwrap();
    assert!(t.date_added.nanos < 2_000_000_000);
    assert!(t.date_added.secs > 1_600_000_000);
    assert!(t.date_added.offset_secs > -86_400 && t.date_added.offset_secs < 86_400);
    assert!(t.completed);
    assert_eq!(t.description, Some("b".to_string()));
    assert_eq!(t.date_completed, None);
}

#[test]
fn remove_middle_of_three_keeps_the_others_in_order() {
    let mut l = list_of(&["a", "b", "c"]);
    assert_eq!(l.remove(1), Ok(()));
    assert_eq!(names(&l), vec!["a".to_string(), "c".to_string()]);
}

#[test]
fn remove_each_valid_position_drops_exactly_that_todo() {
    for id in 0..4 {
        let mut l = list_of(&["a", "b", "c", "d"]);
        let mut expected = names(&l);
        expected.remove(id);
        assert_eq!(l.remove(id), Ok(()));
        assert_eq!(l.list.len(), 3);
        assert_eq!(names(&l), expected);
    }
}

#[test]
fn remove_out_of_range_leaves_the_list() {
    let mut l = list_of(&["a", "b", "c"]);
    assert_eq!(l.remove(3), Err(TodoErrors::OutOfBounds));
    assert_eq!(l.remove(100), Err(TodoErrors::OutOfBounds));
    assert_eq!(names(&l), vec!["a".to_string(), "b".to_string(), "c".to_string()]);
    let mut empty = list_of(&[]);
    assert_eq!(empty.remove(0), Err(TodoErrors::OutOfBounds));
    assert!(empty.list.is_empty());
}

#[test]
fn complete_out_of_range_leaves_the_list() {
    let mut l = list_of(&["a", "b"]);
    assert_eq!(l.complete(2), Err(TodoErrors::OutOfBounds));
    assert_eq!(l.complete_at(7, stamp(9)), Err(TodoErrors::OutOfBounds));
    assert!(l.list.iter().all(|t| !t.completed && t.date_completed.is_none()));
}

#[test]
fn complete_marks_only_that_todo() {
    let mut l = list_of(&["a", "b", "c"]);
    assert_eq!(l.complete(1), Ok(()));
    assert!(l.list[1].completed);
    assert!(l.list[1].date_completed.is_some());
    assert!(!l.list[0].completed && !l.list[2].completed);
    assert_eq!(names(&l), vec!["a".to_string(), "b".to_string(), "c".to_string()]);
}

#[test]
fn complete_twice_keeps_the_first_stamp() {
    let mut l = list_of(&["a", "b"]);
    assert_eq!(l.complete_at(0, stamp(100)), Ok(()));
    assert_eq!(l.list[0].date_completed, Some(stamp(100)));
    assert_eq!(l.complete_at(0, stamp(200)), Ok(()));
    assert!(l.list[0].completed);
    assert_eq!(l.list[0].date_completed, Some(stamp(100)));
    assert_eq!(l.list[0].date_added, stamp(0));
    let first = l.list[0].date_completed;
    assert_eq!(l.complete(0), Ok(()));
    assert_eq!(l.list[0].date_completed, first);
}

#[test]
fn blank_names_are_refused() {
    assert_eq!(Todo::new(String::new(), None, false).unwrap_err(), TodoErrors::BlankName);
    assert_eq!(Todo::new("   \t\n".to_string(), None, false).unwrap_err(), TodoErrors::BlankName);
    assert_eq!(
        Todo::new_at("\u{3000}\u{a0}".to_string(), None, false, stamp(1)).unwrap_err(),
        TodoErrors::BlankName
    );
    let t = Todo::new_at(" x ".to_string(), None, false, stamp(1)).unwrap();
    assert_eq!(t.name, " x ");
}

#[test]
fn find_todo_id_returns_first_trimmed_match() {
    let l = list_of(&["Walk dog", "  Buy milk ", "Buy milk", "Buy milk and eggs"]);
    assert_eq!(l.find_todo_id("Buy milk".to_string()), Ok(1));
    assert_eq!(l.find_todo_id(" Walk dog\n".to_string()), Ok(0));
    assert_eq!(l.find_todo_id("Buy bread".to_string()), Err(TodoErrors::TodoNotFound));
    assert_eq!(list_of(&[]).find_todo_id("Buy milk".to_string()), Err(TodoErrors::TodoNotFound));
}

#[test]
fn create_new_uses_the_resource_directory_by_default() {
    let l = TodoList::create_new("groceries".to_string(), None);
    assert_eq!(l.path, "./recources/groceries.json");
    assert_eq!(l.name, "groceries");
    assert!(l.list.is_empty());
    let m = TodoList::create_new("x".to_string(), Some("/data/x.json".to_string()));
    assert_eq!(m.path, "/data/x.json");
}

#[test]
fn added_todos_keep_insertion_order() {
    let mut l = list_of(&["a"]);
    l.add(Todo::new_at("b".to_string(), Some("d".to_string()), false, stamp(5)).unwrap()).unwrap();
    assert_eq!(l.list.len(), 2);
    assert_eq!(l.list[1].name, "b");
    assert_eq!(l.list[1].description, Some("d".to_string()));
    assert_eq!(l.list[1].date_added, stamp(5));
    let c = l.clone();
    assert_eq!(names(&c), names(&l));
    assert_eq!(c.path, l.path);
}

#[test]
fn find_first_takes_the_earliest_equal_key() {
    let keys: Vec<String> = vec!["a".to_string(), "b".to_string(), "b".to_string()];
    assert_eq!(find_first(&keys, &"b".to_string()), Some(1));
    assert_eq!(find_first(&keys, &"c".to_string()), None);
    assert_eq!(find_first(&keys, &" a".to_string()), None);
    assert_eq!(find_first(&Vec::new(), &"a".to_string()), None);
}

#[test]
fn complete_dates_a_todo_made_completed() {
    let mut l = list_of(&[]);
    l.add(Todo::new_at("a".to_string(), None, true, stamp(1)).unwrap()).unwrap();
    assert_eq!(l.complete_at(0, stamp(50)), Ok(()));
    assert!(l.list[0].completed);
    assert_eq!(l.list[0].date_completed, Some(stamp(50)));
    assert_eq!(l.complete_at(0, stamp(60)), Ok(()));
    assert_eq!(l.list[0].date_completed, Some(stamp(50)));
}

#[test]
fn trim_text_strips_white_space_at_both_ends() {
    assert_eq!(trim_text("  Buy milk \n"), "Buy milk");
    assert_eq!(trim_text("\u{3000}a b\u{a0}"), "a b");
    assert_eq!(trim_text("x"), "x");
    assert_eq!(trim_text(" \t "), "");
    assert_eq!(trim_text(""), "");
    assert_eq!(trim_text("\u{200b}a"), "\u{200b}a");
    assert_eq!(trim_text("é  ü"), "é  ü");
}
