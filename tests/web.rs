use rust_axum_askama_htmx::cache::TodoCache;
use rust_axum_askama_htmx::error::AppError;
use rust_axum_askama_htmx::model::{Todo, TodoEditSchema};
use rust_axum_askama_htmx::session::SessionFlags;
use rust_axum_askama_htmx::web::{
    check_title, fallback_link, login_accepted, logout_reply, todo_added, todo_deleted, todo_fetched,
    todo_patched, Flash, Location, Reply, TokenCookie,
};

fn todo(id: i64, title: &str) -> Todo {
    Todo {
        id,
        created_by: "owner".to_string(),
        title: title.to_string(),
        description: String::new(),
        status: false,
        created_at: 0,
    }
}

fn cache_of(items: Vec<Todo>) -> TodoCache {
    let mut c = TodoCache::new();
    c.replace_all(items);
    c
}

#[test]
fn create_with_empty_title_is_client_error() {
    let cache = cache_of(vec![todo(1, "a")]);
    let reply = check_title("");
    assert_eq!(
        reply,
        Some(Reply::ErrorPage { status: 400, error: AppError::ValidationError, link: Location::TodoList })
    );
    assert_eq!(check_title("   \t\n").is_some(), true);
    assert_eq!(cache.read_all(), vec![todo(1, "a")]);
}

#[test]
fn create_with_title_goes_to_front() {
    assert_eq!(check_title("buy milk"), None);
    assert_eq!(check_title("  x  "), None);
    let mut cache = cache_of(vec![todo(1, "a")]);
    let reply = todo_added(Ok(todo(2, "buy milk")), &mut cache);
    assert_eq!(
        reply,
        Reply::Redirect { to: Location::TodoList, flash: Some(Flash::TaskCreated), cookie: TokenCookie::Keep }
    );
    assert_eq!(cache.read_all(), vec![todo(2, "buy milk"), todo(1, "a")]);
}

#[test]
fn failed_insert_leaves_cache() {
    let mut cache = cache_of(vec![todo(1, "a")]);
    let reply = todo_added(Err(AppError::StorageError("full".to_string())), &mut cache);
    assert_eq!(
        reply,
        Reply::ErrorPage { status: 500, error: AppError::StorageError("full".to_string()), link: Location::TodoList }
    );
    assert_eq!(cache.len(), 1);
}

#[test]
fn patch_success_updates_cache() {
    let mut cache = cache_of(vec![todo(2, "b"), todo(1, "a")]);
    let form = TodoEditSchema { title: "B".to_string(), description: "d".to_string(), status: true };
    let reply = todo_patched(2, form, Ok(()), &mut cache);
    assert_eq!(
        reply,
        Reply::Redirect { to: Location::TodoList, flash: Some(Flash::TaskUpdated), cookie: TokenCookie::Keep }
    );
    let all = cache.read_all();
    assert_eq!(all[0].title, "B");
    assert_eq!(all[0].description, "d");
    assert!(all[0].status);
    assert_eq!(all[1], todo(1, "a"));
}

#[test]
fn patch_failure_prunes_id() {
    let mut cache = cache_of(vec![todo(2, "b"), todo(1, "a")]);
    let form = TodoEditSchema { title: "B".to_string(), description: String::new(), status: false };
    let reply = todo_patched(2, form, Err(AppError::NotFound), &mut cache);
    assert_eq!(reply, Reply::ErrorPage { status: 404, error: AppError::NotFound, link: Location::TodoList });
    assert_eq!(cache.read_all(), vec![todo(1, "a")]);
}

#[test]
fn delete_prunes_either_way() {
    let mut cache = cache_of(vec![todo(2, "b"), todo(1, "a")]);
    let reply = todo_deleted(1, Ok(()), &mut cache);
    assert_eq!(
        reply,
        Reply::Redirect { to: Location::TodoList, flash: Some(Flash::TaskDeleted), cookie: TokenCookie::Keep }
    );
    assert_eq!(cache.read_all(), vec![todo(2, "b")]);
    let reply = todo_deleted(2, Err(AppError::NotFound), &mut cache);
    assert_eq!(reply, Reply::ErrorPage { status: 404, error: AppError::NotFound, link: Location::TodoList });
    assert_eq!(cache.len(), 0);
}

#[test]
fn fetch_for_edit() {
    let mut cache = cache_of(vec![todo(2, "b"), todo(1, "a")]);
    assert_eq!(todo_fetched(2, Ok(todo(2, "b")), &mut cache), Ok(todo(2, "b")));
    assert_eq!(cache.len(), 2);
    assert_eq!(todo_fetched(1, Err(AppError::NotFound), &mut cache), Err(AppError::NotFound));
    assert_eq!(cache.read_all(), vec![todo(2, "b")]);
}

#[test]
fn login_replaces_cache() {
    let mut cache = cache_of(vec![todo(9, "someone else")]);
    let reply = login_accepted("tok".to_string(), Ok(vec![todo(2, "b"), todo(1, "a")]), &mut cache);
    assert_eq!(
        reply,
        Reply::Redirect { to: Location::TodoList, flash: Some(Flash::LoggedIn), cookie: TokenCookie::Issue("tok".to_string()) }
    );
    assert_eq!(cache.read_all(), vec![todo(2, "b"), todo(1, "a")]);
}

#[test]
fn login_with_unreadable_todos_shows_error() {
    let mut cache = cache_of(vec![todo(9, "kept")]);
    let reply = login_accepted("tok".to_string(), Err(AppError::StorageError("gone".to_string())), &mut cache);
    assert_eq!(
        reply,
        Reply::ErrorPage { status: 500, error: AppError::StorageError("gone".to_string()), link: Location::Home }
    );
    assert_eq!(cache.read_all(), vec![todo(9, "kept")]);
}

#[test]
fn logout_clears_flag_and_cookie() {
    let mut s = SessionFlags { from_protected: Some(true), timezone: Some("Europe/Madrid".to_string()) };
    let reply = logout_reply(&mut s);
    assert_eq!(reply, Reply::Redirect { to: Location::Login, flash: Some(Flash::LoggedOut), cookie: TokenCookie::Clear });
    assert_eq!(s.from_protected, Some(false));
    assert_eq!(s.get_timezone(), "Europe/Madrid");
}

#[test]
fn unknown_path_link_follows_flag() {
    let mut s = SessionFlags::new();
    assert_eq!(fallback_link(&s), Location::Home);
    s.set_flag(true);
    assert_eq!(fallback_link(&s), Location::TodoList);
}

#[test]
fn location_paths() {
    assert_eq!(Location::Home.path(), "/");
    assert_eq!(Location::Login.path(), "/login");
    assert_eq!(Location::Register.path(), "/register");
    assert_eq!(Location::TodoList.path(), "/todo/list");
}

#[test]
fn flash_texts() {
    assert_eq!(Flash::Registered.text(), "You have successfully registered!!");
    assert_eq!(Flash::LoggedIn.text(), "You have successfully logged in!!");
    assert_eq!(Flash::TaskCreated.text(), "Task created successfully!!");
    assert!(!Flash::TaskDeleted.is_error());
    let f = Flash::Failed(AppError::InvalidCredentials);
    assert!(f.is_error());
    assert_eq!(f.text(), "Something went wrong: invalid email or password.");
}
