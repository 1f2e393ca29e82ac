use rust_axum_askama_htmx::cache::TodoCache;
use rust_axum_askama_htmx::model::Todo;

fn todo(id: i64, title: &str) -> Todo {
    Todo {
        id,
        created_by: "owner".to_string(),
        title: title.to_string(),
        description: format!("about {}", title),
        status: false,
        created_at: 1_700_000_000 + id,
    }
}

fn filled() -> TodoCache {
    let mut c = TodoCache::new();
    c.replace_all(vec![todo(3, "c"), todo(2, "b"), todo(1, "a")]);
    c
}

#[test]
fn replace_and_read_all() {
    let c = filled();
    assert_eq!(c.read_all(), vec![todo(3, "c"), todo(2, "b"), todo(1, "a")]);
    assert_eq!(c.len(), 3);
    assert_eq!(TodoCache::new().read_all(), Vec::<Todo>::new());
}

#[test]
fn insert_front_keeps_newest_first() {
    let mut c = filled();
    c.insert_front(todo(4, "d"));
    let all = c.read_all();
    assert_eq!(all[0], todo(4, "d"));
    assert_eq!(all.len(), 4);
    assert_eq!(all[1..].to_vec(), vec![todo(3, "c"), todo(2, "b"), todo(1, "a")]);
}

#[test]
fn update_then_read_reflects_change() {
    let mut c = filled();
    c.update_in_place(2, "B!".to_string(), "new text".to_string(), true);
    let all = c.read_all();
    assert_eq!(all[0], todo(3, "c"));
    assert_eq!(all[2], todo(1, "a"));
    assert_eq!(
        all[1],
        Todo {
            id: 2,
            created_by: "owner".to_string(),
            title: "B!".to_string(),
            description: "new text".to_string(),
            status: true,
            created_at: 1_700_000_002,
        }
    );
}

#[test]
fn update_missing_id_is_noop() {
    let mut c = filled();
    c.update_in_place(99, "x".to_string(), "y".to_string(), true);
    assert_eq!(c.read_all(), filled().read_all());
}

#[test]
fn remove_on_empty_is_noop() {
    let mut c = TodoCache::new();
    c.remove(1);
    assert_eq!(c.len(), 0);
}

#[test]
fn remove_non_matching_is_noop() {
    let mut c = filled();
    c.remove(42);
    assert_eq!(c.len(), 3);
    assert_eq!(c.read_all(), filled().read_all());
}

#[test]
fn remove_matching_shrinks_by_one() {
    let mut c = filled();
    c.remove(2);
    assert_eq!(c.len(), 2);
    assert_eq!(c.read_all(), vec![todo(3, "c"), todo(1, "a")]);
    c.remove(2);
    assert_eq!(c.len(), 2);
}

#[test]
fn snapshot_is_a_copy() {
    let mut c = filled();
    let snap = c.read_all();
    c.remove(3);
    assert_eq!(snap.len(), 3);
    assert_eq!(c.len(), 2);
}

#[test]
fn duplicate_copies_every_field() {
    let t = todo(7, "g");
    assert_eq!(t.duplicate(), t);
}

#[test]
fn update_with_unique_ids_touches_one_position() {
    let mut c = filled();
    c.update_in_place(3, "C".to_string(), "cc".to_string(), true);
    let all = c.read_all();
    assert_eq!((all[0].id, all[0].title.as_str(), all[0].description.as_str(), all[0].status), (3, "C", "cc", true));
    assert_eq!(all[1..].to_vec(), vec![todo(2, "b"), todo(1, "a")]);
}
