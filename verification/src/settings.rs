//! The persisted settings and the rule by which an update is merged into them.

use vstd::prelude::*;
use crate::failure::Failure;

verus! {

/// The settings: at present only the name of the active boat.
#[derive(Debug, PartialEq, Eq)]
pub struct Settings {
    pub boat: Option<String>,
}

impl View for Settings {
    type V = Option<Seq<char>>;

    /// The boat's name as text, if one is set.
    open spec fn view(&self) -> Option<Seq<char>> {
        match self.boat {
            Some(name) => Some(name@),
            None => None,
        }
    }
}

/// What the caller found where the settings are kept.
#[derive(Debug, PartialEq, Eq)]
pub enum Stored {
    /// Nothing has been saved yet.
    Missing,
    /// Something is there, but it could not be read as settings.
    Unreadable,
    /// The settings that were saved last.
    Found(Settings),
}

impl Stored {
    /// The boat that the stored settings name, if they name one.
    pub open spec fn boat(&self) -> Option<Seq<char>> {
        match self {
            Stored::Found(settings) => settings@,
            _ => None,
        }
    }
}

/// Field by field, an incoming value replaces the stored one, and a field
/// that the update leaves unset keeps what was stored.
pub open spec fn merged(stored: Option<Seq<char>>, incoming: Option<Seq<char>>) -> Option<
    Seq<char>,
> {
    match incoming {
        Some(_) => incoming,
        None => stored,
    }
}

/// What `set` persists: the update itself where nothing was stored, the
/// merge where settings were found, and nothing where they are unreadable.
pub open spec fn persisted(stored: Stored, incoming: Settings) -> Result<Option<Seq<char>>, Failure> {
    match stored {
        Stored::Missing => Ok(incoming@),
        Stored::Found(old) => Ok(merged(old@, incoming@)),
        Stored::Unreadable => Err(Failure::UnreadableSettings),
    }
}

impl Settings {
    /// A copy of these settings.
    pub fn duplicate(&self) -> (out: Settings)
        ensures
            out@ == self@,
    {
        match &self.boat {
            Some(name) => Settings { boat: Some(name.clone()) },
            None => Settings { boat: None },
        }
    }

    /// Merges an update into these settings.
    pub fn merge(&self, incoming: &Settings) -> (out: Settings)
        ensures
            out@ == merged(self@, incoming@),
    {
        match &incoming.boat {
            Some(name) => Settings { boat: Some(name.clone()) },
            None => self.duplicate(),
        }
    }
}

/// Decides what to persist when the user updates the settings.
pub fn set(stored: &Stored, incoming: &Settings) -> (out: Result<Settings, Failure>)
    ensures
        match persisted(*stored, *incoming) {
            Ok(value) => out matches Ok(settings) && settings@ == value,
            Err(failure) => out matches Err(f) && f == failure,
        },
{
    match stored {
        Stored::Missing => Ok(incoming.duplicate()),
        Stored::Found(old) => Ok(old.merge(incoming)),
        Stored::Unreadable => Err(Failure::UnreadableSettings),
    }
}

/// An update that names no boat leaves a stored boat as it was.
pub proof fn update_without_boat_keeps_stored(old: Settings, incoming: Settings)
    requires
        incoming@ is None,
    ensures
        persisted(Stored::Found(old), incoming) == Ok::<Option<Seq<char>>, Failure>(old@),
{
}

/// A boat once stored is never erased: after any update of readable
/// settings that named a boat, the persisted settings name one too.
pub proof fn update_never_erases_boat(old: Settings, incoming: Settings)
    requires
        old@ is Some,
    ensures
        persisted(Stored::Found(old), incoming) matches Ok(Some(_)),
{
}

/// An update that names a boat makes it the stored one, whatever was there.
pub proof fn update_with_boat_replaces(stored: Stored, incoming: Settings)
    requires
        incoming@ is Some,
        !(stored is Unreadable),
    ensures
        persisted(stored, incoming) == Ok::<Option<Seq<char>>, Failure>(incoming@),
{
}

/// Saving the same update twice persists what saving it once did.
pub proof fn update_is_idempotent(old: Settings, incoming: Settings, saved: Settings)
    requires
        persisted(Stored::Found(old), incoming) == Ok::<Option<Seq<char>>, Failure>(saved@),
    ensures
        persisted(Stored::Found(saved), incoming) == Ok::<Option<Seq<char>>, Failure>(saved@),
{
}

} // verus!
