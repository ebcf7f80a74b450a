//! The validated fields of a clip.

use crate::time::{describe, midnight_utc, utc_instant, Time};
use vstd::prelude::*;

verus! {

/// Why a value was refused as a field of a clip. Each reason carries the
/// words of the failure beneath it.
#[derive(Clone, Debug, PartialEq, Eq)]
pub enum ClipError {
    /// The text is no date.
    DateParse(String),
    /// The text is no identifier.
    Id(String),
    /// The number is no count of hits.
    Hits(String),
}

/// The text that `str::trim` returns for `text`.
pub uninterp spec fn trimmed(text: Seq<char>) -> Seq<char>;

/// `str::trim` of std: the text without its leading and trailing whitespace.
/// The contract names the result and says that it is no longer than the
/// text.
#[verifier::external_body]
fn trim(text: &str) -> (inner: &str)
    ensures
        inner@ == trimmed(text@),
        inner@.len() <= text@.len(),
{
    text.trim()
}

/// The text of an optional field: `None` where no text is given or where
/// trimming the text leaves nothing, else the text as it was given.
pub open spec fn present(text: Option<String>) -> Option<String> {
    match text {
        Some(given) => if trimmed(given@).len() == 0 {
            None
        } else {
            Some(given)
        },
        None => None,
    }
}

/// Drops a text that is blank: see [`present`]. Trimming never makes a text
/// longer, so the empty text is always dropped.
pub fn unless_blank(text: Option<String>) -> (kept: Option<String>)
    ensures
        kept == present(text),
        text is Some ==> trimmed(text->0@).len() <= text->0@.len(),
{
    match text {
        Some(given) => {
            let blank = {
                let inner = trim(given.as_str());
                inner.is_empty()
            };
            if !blank {
                Some(given)
            } else {
                None
            }
        },
        None => None,
    }
}

/// What an optional text holds, as plain values.
pub open spec fn text_view(text: Option<String>) -> Option<Seq<char>> {
    match text {
        Some(given) => Some(given@),
        None => None,
    }
}

/// An optional text as it is shown: the text, or nothing at all.
pub open spec fn shown(text: Option<Seq<char>>) -> Seq<char> {
    match text {
        Some(given) => given,
        None => Seq::<char>::empty(),
    }
}

/// The number of times a clip was accessed.
#[derive(Clone, Debug, PartialEq, Eq)]
pub struct Hits(u64);

impl View for Hits {
    type V = u64;

    closed spec fn view(&self) -> u64 {
        self.0
    }
}

impl Hits {
    /// The field for `hits` accesses.
    pub fn new(hits: u64) -> (field: Hits)
        ensures
            field@ == hits,
    {
        Hits(hits)
    }

    /// The field for the hit counter of a stored clip. A negative counter is
    /// refused with `ClipError::Hits`.
    pub fn from_stored(hits: i64) -> (field: Result<Hits, ClipError>)
        ensures
            match field {
                Ok(read) => hits >= 0 && read@ == hits,
                Err(error) => hits < 0 && error is Hits,
            },
    {
        if hits >= 0 {
            Ok(Hits(hits as u64))
        } else {
            Err(ClipError::Hits("out of range integral type conversion attempted".to_owned()))
        }
    }

    /// The number of accesses.
    pub fn into_inner(self) -> (hits: u64)
        ensures
            hits == self@,
    {
        self.0
    }
}

/// The password that protects a clip, if it has one.
#[derive(Clone, Debug, PartialEq, Eq)]
pub struct Password(Option<String>);

impl View for Password {
    type V = Option<Seq<char>>;

    closed spec fn view(&self) -> Option<Seq<char>> {
        text_view(self.0)
    }
}

impl Password {
    /// The password field for the given text. Text of which trimming leaves
    /// nothing stands for no password, as does `None`. Never refused.
    pub fn new(password: Option<String>) -> (field: Result<Password, ClipError>)
        ensures
            field is Ok,
            field->Ok_0@ == text_view(present(password)),
            password is Some ==> trimmed(password->0@).len() <= password->0@.len(),
    {
        Ok(Password(unless_blank(password)))
    }

    /// The password field for the text of `s`: see [`Password::new`].
    pub fn from_str(s: &str) -> (field: Result<Password, ClipError>)
        ensures
            field is Ok,
            field->Ok_0@ == (if trimmed(s@).len() == 0 {
                None
            } else {
                Some(s@)
            }),
    {
        Password::new(Some(s.to_owned()))
    }

    /// The password text, if a password is set.
    pub fn into_inner(self) -> (password: Option<String>)
        ensures
            text_view(password) == self@,
    {
        self.0
    }

    /// Whether a password is set.
    pub fn has_password(&self) -> (set: bool)
        ensures
            set == self@ is Some,
    {
        self.0.is_some()
    }

    /// Whether both passwords read the same: their texts are equal, where no
    /// password reads as the empty text.
    pub fn same_text(&self, other: &Password) -> (same: bool)
        ensures
            same == (shown(self@) == shown(other@)),
    {
        match (&self.0, &other.0) {
            (Some(mine), Some(theirs)) => *mine == *theirs,
            (Some(mine), None) => {
                let empty = mine.as_str().is_empty();
                assert(empty == (mine@ =~= Seq::<char>::empty()));
                empty
            },
            (None, Some(theirs)) => {
                let empty = theirs.as_str().is_empty();
                assert(empty == (theirs@ =~= Seq::<char>::empty()));
                empty
            },
            (None, None) => true,
        }
    }

    /// The password text; empty where no password is set.
    pub fn to_str(&self) -> (text: &str)
        ensures
            text@ == shown(self@),
    {
        match self.0 {
            Some(ref password) => password.as_str(),
            None => {
                proof {
                    reveal_strlit("");
                }
                let text = "";
                assert(text@ =~= Seq::<char>::empty());
                text
            },
        }
    }
}

impl Default for Password {
    /// No password.
    fn default() -> (field: Password)
        ensures
            field@ is None,
    {
        Password(None)
    }
}

/// The title of a clip, if it has one.
#[derive(Clone, Debug, PartialEq, Eq)]
pub struct Title(Option<String>);

impl View for Title {
    type V = Option<Seq<char>>;

    closed spec fn view(&self) -> Option<Seq<char>> {
        text_view(self.0)
    }
}

impl Title {
    /// The title field for the given text. Text of which trimming leaves
    /// nothing stands for no title, as does `None`.
    pub fn new(title: Option<String>) -> (field: Title)
        ensures
            field@ == text_view(present(title)),
            title is Some ==> trimmed(title->0@).len() <= title->0@.len(),
    {
        Title(unless_blank(title))
    }

    /// The title field for the text of `s`: see [`Title::new`]. Never refused.
    pub fn from_str(s: &str) -> (field: Result<Title, ClipError>)
        ensures
            field is Ok,
            field->Ok_0@ == (if trimmed(s@).len() == 0 {
                None
            } else {
                Some(s@)
            }),
    {
        Ok(Title::new(Some(s.to_owned())))
    }

    /// The title text, if a title is set.
    pub fn into_inner(self) -> (title: Option<String>)
        ensures
            text_view(title) == self@,
    {
        self.0
    }
}

impl Default for Title {
    /// No title.
    fn default() -> (field: Title)
        ensures
            field@ is None,
    {
        Title(None)
    }
}

/// The time at which a clip expires, if it ever does.
#[derive(Clone, Copy, Debug, PartialEq, Eq)]
pub struct Expires(Option<Time>);

impl View for Expires {
    type V = Option<(i64, u32)>;

    closed spec fn view(&self) -> Option<(i64, u32)> {
        match self.0 {
            Some(time) => Some(time@),
            None => None,
        }
    }
}

impl Expires {
    /// The field for a clip that expires at the given time, or never.
    pub fn new(expires: Option<Time>) -> (field: Expires)
        ensures
            field@ == match expires {
                Some(time) => Some(time@),
                None => None,
            },
    {
        Expires(expires)
    }

    /// The time of expiry, if there is one.
    pub fn into_inner(self) -> (expires: Option<Time>)
        ensures
            self@ == match expires {
                Some(time) => Some(time@),
                None => None,
            },
    {
        self.0
    }

    /// Reads the field from text: empty text is no expiry, a date is the
    /// start of that day in UTC, and anything else is refused with
    /// `ClipError::DateParse`.
    pub fn from_str(raw: &str) -> (parsed: Result<Expires, ClipError>)
        ensures
            match parsed {
                Ok(field) => if raw@.len() == 0 {
                    field@ is None
                } else {
                    field@ is Some && utc_instant(raw@ + midnight_utc()) == field@
                },
                Err(error) => raw@.len() != 0 && utc_instant(raw@ + midnight_utc()) is None
                    && error is DateParse,
            },
    {
        if raw.is_empty() {
            Ok(Expires(None))
        } else {
            match Time::from_str(raw) {
                Ok(time) => Ok(Expires(Some(time))),
                Err(error) => Err(ClipError::DateParse(describe(&error))),
            }
        }
    }
}

impl Default for Expires {
    /// No expiry.
    fn default() -> (field: Expires)
        ensures
            field@ is None,
    {
        Expires(None)
    }
}

/// The time at which a clip was posted.
#[derive(Clone, Copy, Debug, PartialEq, Eq)]
pub struct Posted(Time);

impl View for Posted {
    type V = (i64, u32);

    closed spec fn view(&self) -> (i64, u32) {
        self.0@
    }
}

impl Posted {
    /// The field for a clip posted at the given time.
    pub fn new(posted: Time) -> (field: Posted)
        ensures
            field@ == posted@,
    {
        Posted(posted)
    }

    /// The time of posting.
    pub fn into_inner(self) -> (posted: Time)
        ensures
            posted@ == self@,
    {
        self.0
    }
}

} // verus!
