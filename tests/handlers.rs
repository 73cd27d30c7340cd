use todoapi::handlers::{
    add_todo, delete_todo, filter_todos, get_todo, get_todos, search_todos, toggle_complete,
    update_todo,
};
use todoapi::store::Store;
use todoapi::types::{ApiError, Search, Todo, UpdateTodo};

fn todo(title: &str, description: &str, complete: bool) -> Todo {
    Todo {
        title: title.to_string(),
        description: description.to_string(),
        complete,
    }
}

fn search(query: Option<&str>, limit: Option<usize>, filter: Option<&str>) -> Search {
    Search {
        query: query.map(|q| q.to_string()),
        limit,
        filter: filter.map(|f| f.to_string()),
    }
}

#[test]
fn create_get_toggle_delete_scenario() {
    let mut store = Store::new();
    assert!(store.todolist.is_empty());
    assert_eq!(add_todo(todo("A", "B", false), &mut store.todolist), 0);
    let t = get_todo(0, &store.todolist).unwrap();
    assert_eq!(t.title, "A");
    assert_eq!(t.description, "B");
    assert!(!t.complete);
    let t = toggle_complete(0, &mut store.todolist).unwrap();
    assert_eq!(t.title, "A");
    assert_eq!(t.description, "B");
    assert!(t.complete);
    assert_eq!(delete_todo(0, &mut store.todolist), Ok(0));
    assert_eq!(get_todo(0, &store.todolist).err(), Some(ApiError::NotFound));
    assert_eq!(ApiError::NotFound.status(), 404);
}

#[test]
fn filter_completed_scenario() {
    let mut store = Store::new();
    assert!(store.todolist.is_empty());
    add_todo(todo("Buy milk", "", true), &mut store.todolist);
    add_todo(todo("Walk dog", "", false), &mut store.todolist);
    let done = filter_todos("completed", &store.todolist).unwrap();
    assert_eq!(done.len(), 1);
    assert_eq!(done[0].title, "Buy milk");
    let open = filter_todos("incomplete", &store.todolist).unwrap();
    assert_eq!(open.len(), 1);
    assert_eq!(open[0].title, "Walk dog");
    assert_eq!(filter_todos("bogus", &store.todolist).err(), Some(ApiError::UnknownFilter));
    assert_eq!(ApiError::UnknownFilter.status(), 404);
}

#[test]
fn ids_follow_insertion_order() {
    let mut store = Store::new();
    assert!(store.todolist.is_empty());
    assert_eq!(add_todo(todo("a", "1", false), &mut store.todolist), 0);
    assert_eq!(add_todo(todo("b", "2", true), &mut store.todolist), 1);
    assert_eq!(add_todo(todo("c", "3", false), &mut store.todolist), 2);
    let all = get_todos(&store.todolist);
    let titles: Vec<&str> = all.iter().map(|t| t.title.as_str()).collect();
    assert_eq!(titles, vec!["a", "b", "c"]);
}

#[test]
fn update_overwrites_text_and_keeps_status() {
    let mut store = Store::new();
    assert!(store.todolist.is_empty());
    add_todo(todo("old", "old text", true), &mut store.todolist);
    let patch = UpdateTodo {
        title: "new".to_string(),
        description: "new text".to_string(),
    };
    let t = update_todo(0, patch, &mut store.todolist).unwrap();
    assert_eq!(t.title, "new");
    assert_eq!(t.description, "new text");
    assert!(t.complete);
    let again = get_todo(0, &store.todolist).unwrap();
    assert_eq!(again.title, "new");
    assert_eq!(again.description, "new text");
    assert!(again.complete);
}

#[test]
fn missing_ids_are_not_found() {
    let mut store = Store::new();
    assert!(store.todolist.is_empty());
    add_todo(todo("x", "y", false), &mut store.todolist);
    let patch = UpdateTodo {
        title: "t".to_string(),
        description: "d".to_string(),
    };
    assert_eq!(update_todo(1, patch, &mut store.todolist).err(), Some(ApiError::NotFound));
    assert_eq!(toggle_complete(5, &mut store.todolist).err(), Some(ApiError::NotFound));
    assert_eq!(delete_todo(1, &mut store.todolist), Err(ApiError::NotFound));
    assert_eq!(get_todos(&store.todolist).len(), 1);
}

#[test]
fn toggle_twice_restores_status() {
    let mut store = Store::new();
    assert!(store.todolist.is_empty());
    add_todo(todo("x", "y", false), &mut store.todolist);
    assert!(toggle_complete(0, &mut store.todolist).unwrap().complete);
    assert!(!toggle_complete(0, &mut store.todolist).unwrap().complete);
    assert!(!get_todo(0, &store.todolist).unwrap().complete);
}

#[test]
fn delete_shifts_later_ids_down() {
    let mut store = Store::new();
    assert!(store.todolist.is_empty());
    add_todo(todo("a", "", false), &mut store.todolist);
    add_todo(todo("b", "", false), &mut store.todolist);
    add_todo(todo("c", "", false), &mut store.todolist);
    assert_eq!(delete_todo(1, &mut store.todolist), Ok(1));
    assert_eq!(get_todos(&store.todolist).len(), 2);
    assert_eq!(get_todo(0, &store.todolist).unwrap().title, "a");
    assert_eq!(get_todo(1, &store.todolist).unwrap().title, "c");
    assert_eq!(delete_todo(1, &mut store.todolist), Ok(1));
    assert_eq!(get_todo(1, &store.todolist).err(), Some(ApiError::NotFound));
}

#[test]
fn filters_partition_the_list() {
    let mut store = Store::new();
    assert!(store.todolist.is_empty());
    for (i, c) in [true, false, false, true, false].iter().enumerate() {
        add_todo(todo(&format!("t{}", i), "", *c), &mut store.todolist);
    }
    let done = filter_todos("completed", &store.todolist).unwrap();
    let open = filter_todos("incomplete", &store.todolist).unwrap();
    assert_eq!(done.len() + open.len(), 5);
    assert!(done.iter().all(|t| t.complete));
    assert!(open.iter().all(|t| !t.complete));
    let done_titles: Vec<&str> = done.iter().map(|t| t.title.as_str()).collect();
    assert_eq!(done_titles, vec!["t0", "t3"]);
}

#[test]
fn search_without_query_is_bad_request() {
    let mut store = Store::new();
    assert!(store.todolist.is_empty());
    add_todo(todo("foo", "", false), &mut store.todolist);
    let r = search_todos(search(None, Some(3), Some("completed")), &store.todolist);
    assert_eq!(r.err(), Some(ApiError::MissingQuery));
    assert_eq!(ApiError::MissingQuery.status(), 400);
}

#[test]
fn search_ignores_case() {
    let mut store = Store::new();
    assert!(store.todolist.is_empty());
    add_todo(todo("Buy FOOD", "", false), &mut store.todolist);
    add_todo(todo("Walk dog", "find the Foot", true), &mut store.todolist);
    add_todo(todo("Sleep", "nothing", false), &mut store.todolist);
    let r = search_todos(search(Some("FoO"), None, None), &store.todolist).unwrap();
    let titles: Vec<&str> = r.iter().map(|t| t.title.as_str()).collect();
    assert_eq!(titles, vec!["Buy FOOD", "Walk dog"]);
}

#[test]
fn search_limit_and_filter() {
    let mut store = Store::new();
    assert!(store.todolist.is_empty());
    for i in 0..5 {
        add_todo(todo(&format!("foo {}", i), "", i % 2 == 0), &mut store.todolist);
    }
    let r = search_todos(search(Some("foo"), Some(2), None), &store.todolist).unwrap();
    let titles: Vec<&str> = r.iter().map(|t| t.title.as_str()).collect();
    assert_eq!(titles, vec!["foo 0", "foo 1"]);
    let r = search_todos(search(Some("foo"), None, Some("Incomplete")), &store.todolist).unwrap();
    let titles: Vec<&str> = r.iter().map(|t| t.title.as_str()).collect();
    assert_eq!(titles, vec!["foo 1", "foo 3"]);
    let r = search_todos(search(Some("foo"), Some(10), Some("whatever")), &store.todolist).unwrap();
    assert_eq!(r.len(), 5);
    let r = search_todos(search(Some("foo"), Some(0), None), &store.todolist).unwrap();
    assert!(r.is_empty());
    let r = search_todos(search(Some("bar"), None, None), &store.todolist).unwrap();
    assert!(r.is_empty());
}

#[test]
fn search_three_todos_for_foo() {
    let mut store = Store::new();
    assert!(store.todolist.is_empty());
    add_todo(todo("Foo bar", "x", false), &mut store.todolist);
    add_todo(todo("baz", "has FOO", true), &mut store.todolist);
    add_todo(todo("baz", "qux", false), &mut store.todolist);
    let r = search_todos(search(Some("foo"), None, None), &store.todolist).unwrap();
    assert_eq!(r.len(), 2);
    assert_eq!((r[0].title.as_str(), r[0].description.as_str(), r[0].complete), ("Foo bar", "x", false));
    assert_eq!((r[1].title.as_str(), r[1].description.as_str(), r[1].complete), ("baz", "has FOO", true));
}

#[test]
fn empty_query_with_status_matches_filter() {
    let mut store = Store::new();
    assert!(store.todolist.is_empty());
    add_todo(todo("a", "", true), &mut store.todolist);
    add_todo(todo("b", "x", false), &mut store.todolist);
    add_todo(todo("c", "y", true), &mut store.todolist);
    for word in ["completed", "incomplete"] {
        let searched = search_todos(search(Some(""), None, Some(word)), &store.todolist).unwrap();
        let filtered = filter_todos(word, &store.todolist).unwrap();
        let s: Vec<&str> = searched.iter().map(|t| t.title.as_str()).collect();
        let f: Vec<&str> = filtered.iter().map(|t| t.title.as_str()).collect();
        assert_eq!(s, f);
    }
}

#[test]
fn search_unknown_filter_keeps_every_status() {
    let mut store = Store::new();
    assert!(store.todolist.is_empty());
    add_todo(todo("foo", "", true), &mut store.todolist);
    add_todo(todo("foo", "", false), &mut store.todolist);
    let r = search_todos(search(Some("foo"), None, Some("bogus")), &store.todolist).unwrap();
    assert_eq!(r.len(), 2);
}
