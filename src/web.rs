use vstd::prelude::*;
use vstd::string::StringExecFns;

use crate::cache::{updated, without, TodoCache};
use crate::error::{message_of, AppError};
use crate::model::{Todo, TodoEditSchema, User};
use crate::session::{flag_of, SessionFlags};
use crate::text::{blank, is_blank};

verus! {

/// The pages a reply can send the browser to.
#[derive(Debug, Clone, Copy, PartialEq, Eq)]
pub enum Location {
    Home,
    Login,
    Register,
    TodoList,
}

/// The path of each page.
pub open spec fn path_of(l: Location) -> Seq<char> {
    match l {
        Location::Home => "/"@,
        Location::Login => "/login"@,
        Location::Register => "/register"@,
        Location::TodoList => "/todo/list"@,
    }
}

impl Location {
    /// The path of this page.
    pub fn path(&self) -> (r: String)
        ensures
            r@ == path_of(*self),
    {
        match self {
            Location::Home => String::from_str("/"),
            Location::Login => String::from_str("/login"),
            Location::Register => String::from_str("/register"),
            Location::TodoList => String::from_str("/todo/list"),
        }
    }
}

/// The one-shot message shown on the page a redirect leads to.
#[derive(Debug, Clone, PartialEq, Eq)]
pub enum Flash {
    Registered,
    LoggedIn,
    LoggedOut,
    TaskCreated,
    TaskUpdated,
    TaskDeleted,
    Failed(AppError),
}

/// The text of each message.
pub open spec fn flash_text(f: Flash) -> Seq<char> {
    match f {
        Flash::Registered => "You have successfully registered!!"@,
        Flash::LoggedIn => "You have successfully logged in!!"@,
        Flash::LoggedOut => "You have successfully logged out!!"@,
        Flash::TaskCreated => "Task created successfully!!"@,
        Flash::TaskUpdated => "Task successfully updated!!"@,
        Flash::TaskDeleted => "Task successfully deleted!!"@,
        Flash::Failed(e) => "Something went wrong: "@ + message_of(e),
    }
}

impl Flash {
    /// Whether the message reports a failure.
    pub fn is_error(&self) -> (r: bool)
        ensures
            r == (*self is Failed),
    {
        match self {
            Flash::Failed(_) => true,
            _ => false,
        }
    }

    /// The text of the message.
    pub fn text(&self) -> (r: String)
        ensures
            r@ == flash_text(*self),
    {
        match self {
            Flash::Registered => String::from_str("You have successfully registered!!"),
            Flash::LoggedIn => String::from_str("You have successfully logged in!!"),
            Flash::LoggedOut => String::from_str("You have successfully logged out!!"),
            Flash::TaskCreated => String::from_str("Task created successfully!!"),
            Flash::TaskUpdated => String::from_str("Task successfully updated!!"),
            Flash::TaskDeleted => String::from_str("Task successfully deleted!!"),
            Flash::Failed(e) => {
                let detail = e.message();
                String::from_str("Something went wrong: ").concat(detail.as_str())
            },
        }
    }
}

/// What a reply does with the `token` cookie.
#[derive(Debug, Clone, PartialEq, Eq)]
pub enum TokenCookie {
    Keep,
    Issue(String),
    Clear,
}

/// The answer to a request: a redirect (with a message and a cookie change),
/// or an error page with its status code, reason and onward link.
#[derive(Debug, Clone, PartialEq, Eq)]
pub enum Reply {
    Redirect { to: Location, flash: Option<Flash>, cookie: TokenCookie },
    ErrorPage { status: u16, error: AppError, link: Location },
}

/// A redirect that leaves the cookie alone.
pub open spec fn redirect(to: Location, flash: Flash) -> Reply {
    Reply::Redirect { to, flash: Some(flash), cookie: TokenCookie::Keep }
}

/// The reply to a registration: to the login page once the user is stored,
/// back to the registration page with the reason otherwise.
pub fn register_reply(created: Result<User, AppError>) -> (r: Reply)
    ensures
        created is Ok ==> r == redirect(Location::Login, Flash::Registered),
        created matches Err(e) ==> r == redirect(Location::Register, Flash::Failed(e)),
{
    match created {
        Ok(_) => Reply::Redirect { to: Location::Login, flash: Some(Flash::Registered), cookie: TokenCookie::Keep },
        Err(e) => Reply::Redirect { to: Location::Register, flash: Some(Flash::Failed(e)), cookie: TokenCookie::Keep },
    }
}

/// The reply to refused credentials: back to the login page with the
/// reason, and no cookie.
pub fn login_refused(e: AppError) -> (r: Reply)
    ensures
        r == redirect(Location::Login, Flash::Failed(e)),
{
    Reply::Redirect { to: Location::Login, flash: Some(Flash::Failed(e)), cookie: TokenCookie::Keep }
}

/// The end of an accepted login, given the signed token and the user's
/// todos (newest first) as the store returned them: the cache takes those
/// todos and the browser gets the cookie and goes to the list. When the
/// todos cannot be read, an error page is shown and the cache is untouched.
pub fn login_accepted(token: String, todos: Result<Vec<Todo>, AppError>, cache: &mut TodoCache) -> (r: Reply)
    ensures
        todos matches Ok(items) ==> final(cache)@ == items@ && r == (Reply::Redirect {
            to: Location::TodoList,
            flash: Some(Flash::LoggedIn),
            cookie: TokenCookie::Issue(token),
        }),
        todos matches Err(e) ==> final(cache)@ == old(cache)@ && r == (Reply::ErrorPage {
            status: 500,
            error: e,
            link: Location::Home,
        }),
{
    match todos {
        Ok(items) => {
            cache.replace_all(items);
            Reply::Redirect { to: Location::TodoList, flash: Some(Flash::LoggedIn), cookie: TokenCookie::Issue(token) }
        },
        Err(e) => Reply::ErrorPage { status: 500, error: e, link: Location::Home },
    }
}

/// Logging out clears the session flag and the cookie, and goes to the login page.
pub fn logout_reply(session: &mut SessionFlags) -> (r: Reply)
    ensures
        final(session).from_protected == Some(false),
        final(session).timezone == old(session).timezone,
        r == (Reply::Redirect { to: Location::Login, flash: Some(Flash::LoggedOut), cookie: TokenCookie::Clear }),
{
    session.set_flag(false);
    Reply::Redirect { to: Location::Login, flash: Some(Flash::LoggedOut), cookie: TokenCookie::Clear }
}

/// The page for a request refused authorization, with the reason.
pub fn refused_reply(e: AppError) -> (r: Reply)
    ensures
        r == (Reply::ErrorPage { status: 401, error: e, link: Location::Home }),
{
    Reply::ErrorPage { status: 401, error: e, link: Location::Home }
}

/// Where the page for an unknown path points: the list for a session that
/// reached a protected page, the home page otherwise.
pub fn fallback_link(session: &SessionFlags) -> (r: Location)
    ensures
        r == (if flag_of(*session) { Location::TodoList } else { Location::Home }),
{
    if session.get_flag() {
        Location::TodoList
    } else {
        Location::Home
    }
}

/// Refuses a todo form whose title is empty or white space only.
pub fn check_title(title: &str) -> (r: Option<Reply>)
    ensures
        blank(title@) ==> r == Some(
            Reply::ErrorPage { status: 400, error: AppError::ValidationError, link: Location::TodoList },
        ),
        !blank(title@) ==> r is None,
{
    if is_blank(title) {
        Some(Reply::ErrorPage { status: 400, error: AppError::ValidationError, link: Location::TodoList })
    } else {
        None
    }
}

/// The end of a todo creation, given what the store returned: the new todo
/// goes to the front of the cache; a failed insert leaves the cache as it was.
pub fn todo_added(created: Result<Todo, AppError>, cache: &mut TodoCache) -> (r: Reply)
    ensures
        created matches Ok(t) ==> final(cache)@ == seq![t] + old(cache)@ && r == redirect(
            Location::TodoList,
            Flash::TaskCreated,
        ),
        created matches Err(e) ==> final(cache)@ == old(cache)@ && r == (Reply::ErrorPage {
            status: 500,
            error: e,
            link: Location::TodoList,
        }),
{
    match created {
        Ok(t) => {
            cache.insert_front(t);
            Reply::Redirect { to: Location::TodoList, flash: Some(Flash::TaskCreated), cookie: TokenCookie::Keep }
        },
        Err(e) => Reply::ErrorPage { status: 500, error: e, link: Location::TodoList },
    }
}

/// The end of a todo edit, given the store's outcome: the cached todo takes
/// the new values; when the store failed, the id is pruned from the cache.
pub fn todo_patched(id: i64, form: TodoEditSchema, outcome: Result<(), AppError>, cache: &mut TodoCache) -> (r: Reply)
    ensures
        outcome is Ok ==> final(cache)@ == updated(old(cache)@, id, form.title, form.description, form.status)
            && r == redirect(Location::TodoList, Flash::TaskUpdated),
        outcome matches Err(e) ==> final(cache)@ == without(old(cache)@, id) && r == (Reply::ErrorPage {
            status: 404,
            error: e,
            link: Location::TodoList,
        }),
{
    match outcome {
        Ok(()) => {
            cache.update_in_place(id, form.title, form.description, form.status);
            Reply::Redirect { to: Location::TodoList, flash: Some(Flash::TaskUpdated), cookie: TokenCookie::Keep }
        },
        Err(e) => {
            cache.remove(id);
            Reply::ErrorPage { status: 404, error: e, link: Location::TodoList }
        },
    }
}

/// The end of a todo deletion, given the store's outcome: the id leaves the
/// cache either way.
pub fn todo_deleted(id: i64, outcome: Result<(), AppError>, cache: &mut TodoCache) -> (r: Reply)
    ensures
        final(cache)@ == without(old(cache)@, id),
        outcome is Ok ==> r == redirect(Location::TodoList, Flash::TaskDeleted),
        outcome matches Err(e) ==> r == (Reply::ErrorPage { status: 404, error: e, link: Location::TodoList }),
{
    cache.remove(id);
    match outcome {
        Ok(()) => Reply::Redirect { to: Location::TodoList, flash: Some(Flash::TaskDeleted), cookie: TokenCookie::Keep },
        Err(e) => Reply::ErrorPage { status: 404, error: e, link: Location::TodoList },
    }
}

/// The todo to show in the edit dialog, given the store's answer; when the
/// store has no such todo (or failed), the id is pruned from the cache.
pub fn todo_fetched(id: i64, fetched: Result<Todo, AppError>, cache: &mut TodoCache) -> (r: Result<Todo, AppError>)
    ensures
        r == fetched,
        fetched is Ok ==> final(cache)@ == old(cache)@,
        fetched is Err ==> final(cache)@ == without(old(cache)@, id),
{
    if fetched.is_err() {
        cache.remove(id);
    }
    fetched
}

} // verus!
