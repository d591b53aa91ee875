use todui::clock::Stamp;
use todui::todos::{Todo, TodoList};

fn at(secs: i64, offset_secs: i32) -> Stamp {
    Stamp { secs, nanos: 0, offset_secs }
}

#[test]
fn rows_show_every_todo_in_order() {
    let mut l = TodoList::create_new("work".to_string(), Some("/tmp/w.json".to_string()));
    l.add(Todo::new_at("Write report".to_string(), None, false, at(0, 3600)).unwrap()).unwrap();
    l.add(Todo::new_at("Call Bob".to_string(), Some("about lunch".to_string()), false, at(1_700_000_000, 7200)).unwrap())
        .unwrap();
    l.complete_at(1, at(1_700_000_000, -3600 * 5)).unwrap();
    let rows = l.rows();
    assert_eq!(rows.len(), 2);
    assert_eq!(rows[0].id, "0");
    assert_eq!(rows[0].name, "Write report");
    assert_eq!(rows[0].description, "N/A");
    assert_eq!(rows[0].date_added, "1/1/1970");
    assert_eq!(rows[0].completed, "No");
    assert_eq!(rows[0].date_completed, "N/A");
    assert_eq!(rows[1].id, "1");
    assert_eq!(rows[1].description, "about lunch");
    assert_eq!(rows[1].date_added, "15/11/2023");
    assert_eq!(rows[1].completed, "Yes");
    assert_eq!(rows[1].date_completed, "14/11/2023");
}

#[test]
fn row_numbers_are_decimal() {
    let t = Todo::new_at("x".to_string(), None, false, at(86_400 * 365, 0)).unwrap();
    let r = t.row(1234);
    assert_eq!(r.id, "1234");
    assert_eq!(r.date_added, "1/1/1971");
}

#[test]
fn unrepresentable_date_is_missing() {
    let t = Todo::new_at("x".to_string(), None, false, at(i64::MAX, 0)).unwrap();
    assert_eq!(t.row(0).date_added, "N/A");
    let u = Todo::new_at("y".to_string(), None, false, at(0, 90_000)).unwrap();
    assert_eq!(u.row(0).date_added, "N/A");
}

#[test]
fn dates_before_the_year_zero_carry_a_sign() {
    let t = Todo::new_at("x".to_string(), None, false, at(-62_198_755_200, 0)).unwrap();
    assert_eq!(t.row(0).date_added, "1/1/-1");
    let big = Todo::new_at("y".to_string(), None, false, at(0, 0)).unwrap();
    assert_eq!(big.row(18_446_744_073).id, "18446744073");
}

#[test]
fn table_titles() {
    assert_eq!(
        TodoList::titles(),
        vec!["id", "Name", "Description", "Date added", "Completed", "Date Completed"]
    );
}
