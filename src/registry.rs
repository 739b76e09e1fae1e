//! The slot that holds the current session's outbound-event handle and
//! control handle. The owner keeps it behind a lock; callers copy a handle out
//! before sending, so a send never holds the lock.

use vstd::prelude::*;
use crate::text::{chars_of, string_of};

verus! {

/// Why a handle could not be had from the registry.
#[derive(Debug, Clone, Copy, PartialEq, Eq, Structural)]
pub enum RegistryError {
    /// No session can receive a pushed event.
    NoMobileConnected,
    /// No session can receive a control signal.
    NoActiveConnection,
}

/// The text reported to the caller for each error.
pub open spec fn registry_error_text(e: RegistryError) -> Seq<char> {
    match e {
        RegistryError::NoMobileConnected => "Aucun mobile connecté"@,
        RegistryError::NoActiveConnection => "Aucune connexion active"@,
    }
}

impl RegistryError {
    /// The text reported to the caller.
    pub fn message(&self) -> (r: String)
        ensures
            r@ == registry_error_text(*self),
    {
        match self {
            RegistryError::NoMobileConnected => string_of(&chars_of("Aucun mobile connecté")),
            RegistryError::NoActiveConnection => string_of(&chars_of("Aucune connexion active")),
        }
    }
}

/// What the registry holds: the session that owns the slot, and its handles.
pub struct Slots<E, C> {
    pub owner: Option<u64>,
    pub event: Option<E>,
    pub control: Option<C>,
}

/// The empty registry.
pub open spec fn empty_slots<E, C>() -> Slots<E, C> {
    Slots { owner: None, event: None, control: None }
}

/// The slots after session `id` ends: emptied when `id` owns them, kept as
/// they are when a newer session has taken them over.
pub open spec fn released<E, C>(v: Slots<E, C>, id: u64) -> Slots<E, C> {
    if v.owner == Some(id) {
        empty_slots()
    } else {
        v
    }
}

/// What a lookup of the event handle gives for slots `v`.
pub open spec fn event_lookup<E, C>(v: Slots<E, C>) -> Result<E, RegistryError> {
    match v.event {
        Some(e) => Ok(e),
        None => Err(RegistryError::NoMobileConnected),
    }
}

/// What a lookup of the control handle gives for slots `v`.
pub open spec fn control_lookup<E, C>(v: Slots<E, C>) -> Result<C, RegistryError> {
    match v.control {
        Some(c) => Ok(c),
        None => Err(RegistryError::NoActiveConnection),
    }
}

/// At most one outbound-event handle and one control handle: those of the
/// session being served, tagged with that session's id, or none.
pub struct Registry<E, C> {
    owner: Option<u64>,
    event: Option<E>,
    control: Option<C>,
}

impl<E, C> View for Registry<E, C> {
    type V = Slots<E, C>;

    closed spec fn view(&self) -> Slots<E, C> {
        Slots { owner: self.owner, event: self.event, control: self.control }
    }
}

impl<E, C> Registry<E, C> {
    /// An empty registry: no session is served.
    pub fn new() -> (r: Self)
        ensures
            r@ == empty_slots::<E, C>(),
    {
        Registry { owner: None, event: None, control: None }
    }

    /// Records the handles of session `id`, which has just been accepted;
    /// the newest session takes the slot over from any earlier one.
    pub fn install(&mut self, id: u64, event: E, control: C)
        ensures
            final(self)@ == (Slots { owner: Some(id), event: Some(event), control: Some(control) }),
    {
        self.owner = Some(id);
        self.event = Some(event);
        self.control = Some(control);
    }

    /// Session `id` has ended: its handles leave the registry, and those of a
    /// newer session stay.
    pub fn release(&mut self, id: u64)
        ensures
            final(self)@ == released(old(self)@, id),
    {
        match self.owner {
            Some(o) => {
                if o == id {
                    self.owner = None;
                    self.event = None;
                    self.control = None;
                }
            },
            None => {},
        }
    }

    /// Whether a session is being served.
    pub fn is_connected(&self) -> (r: bool)
        ensures
            r == (self@.event is Some),
    {
        self.event.is_some()
    }

    /// The handle to push an event through, or `NoMobileConnected`.
    pub fn event_handle(&self) -> (r: Result<&E, RegistryError>)
        ensures
            match r {
                Ok(h) => event_lookup(self@) == Ok::<E, RegistryError>(*h),
                Err(e) => event_lookup(self@) == Err::<E, RegistryError>(e),
            },
    {
        match &self.event {
            Some(h) => Ok(h),
            None => Err(RegistryError::NoMobileConnected),
        }
    }

    /// The handle to signal the session through, or `NoActiveConnection`.
    pub fn control_handle(&self) -> (r: Result<&C, RegistryError>)
        ensures
            match r {
                Ok(h) => control_lookup(self@) == Ok::<C, RegistryError>(*h),
                Err(e) => control_lookup(self@) == Err::<C, RegistryError>(e),
            },
    {
        match &self.control {
            Some(h) => Ok(h),
            None => Err(RegistryError::NoActiveConnection),
        }
    }
}

/// The registry holds handles exactly while their session is served: once
/// the session that owns the slot ends, a push finds no mobile connected and a
/// terminate finds no connection; when an older session ends, the newer
/// session's handles stay.
pub proof fn lemma_release_only_own_slot<E, C>(v: Slots<E, C>, id: u64)
    ensures
        v.owner == Some(id) ==> event_lookup(released(v, id)) == Err::<E, RegistryError>(
            RegistryError::NoMobileConnected,
        ) && control_lookup(released(v, id)) == Err::<C, RegistryError>(
            RegistryError::NoActiveConnection,
        ),
        v.owner != Some(id) ==> released(v, id) == v,
{
}

} // verus!
