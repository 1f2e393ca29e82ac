use vstd::prelude::*;

verus! {

/// The per-browser-session values the pages read: whether the session last
/// reached a protected page, and the client's time zone. Unset values read
/// as `false` and as the empty text.
#[derive(Debug, Clone, PartialEq, Eq)]
pub struct SessionFlags {
    pub from_protected: Option<bool>,
    pub timezone: Option<String>,
}

/// The flag as read: `false` when unset.
pub open spec fn flag_of(s: SessionFlags) -> bool {
    match s.from_protected {
        Some(b) => b,
        None => false,
    }
}

/// The time zone as read: empty when unset.
pub open spec fn timezone_of(s: SessionFlags) -> Seq<char> {
    match s.timezone {
        Some(tz) => tz@,
        None => Seq::empty(),
    }
}

impl SessionFlags {
    /// A session with nothing set.
    pub fn new() -> (r: SessionFlags)
        ensures
            r.from_protected is None,
            r.timezone is None,
    {
        SessionFlags { from_protected: None, timezone: None }
    }

    /// Records whether the session reached a protected page.
    pub fn set_flag(&mut self, value: bool)
        ensures
            final(self).from_protected == Some(value),
            final(self).timezone == old(self).timezone,
    {
        self.from_protected = Some(value);
    }

    /// Whether the session reached a protected page; `false` if never recorded.
    pub fn get_flag(&self) -> (r: bool)
        ensures
            r == flag_of(*self),
    {
        match self.from_protected {
            Some(b) => b,
            None => false,
        }
    }

    /// Records the client's time zone.
    pub fn set_timezone(&mut self, tz: String)
        ensures
            final(self).timezone == Some(tz),
            final(self).from_protected == old(self).from_protected,
    {
        self.timezone = Some(tz);
    }

    /// The client's time zone; empty if never recorded.
    pub fn get_timezone(&self) -> (r: String)
        ensures
            r@ == timezone_of(*self),
    {
        match &self.timezone {
            Some(tz) => tz.clone(),
            None => String::new(),
        }
    }
}

} // verus!
