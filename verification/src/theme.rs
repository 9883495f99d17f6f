//! Light/dark theme preference: validation of the stored value, the toggle,
//! and the in-memory state that survives a failed write to storage.
//!
//! Reading and writing browser storage, and flipping the document's class
//! list, are effects the unverified shell performs; everything decided from
//! their results is here.

use vstd::prelude::*;

use crate::text::str_eq;

verus! {

/// The display preference: dark or light.
#[derive(Clone, Copy, Debug, PartialEq, Eq, Structural)]
pub enum ThemeMode {
    Dark,
    Light,
}

/// The opposite mode.
pub open spec fn spec_toggle(m: ThemeMode) -> ThemeMode {
    match m {
        ThemeMode::Dark => ThemeMode::Light,
        ThemeMode::Light => ThemeMode::Dark,
    }
}

/// Pure toggle: returns the opposite mode. The caller applies and persists
/// the result.
pub fn toggle(current: ThemeMode) -> (next: ThemeMode)
    ensures
        next == spec_toggle(current),
{
    match current {
        ThemeMode::Dark => ThemeMode::Light,
        ThemeMode::Light => ThemeMode::Dark,
    }
}

/// Toggling twice returns to the starting mode.
pub proof fn lemma_toggle_involution(m: ThemeMode)
    ensures
        spec_toggle(spec_toggle(m)) == m,
{
}

/// View of an optional stored string.
pub open spec fn stored_view(stored: Option<&str>) -> Option<Seq<char>> {
    match stored {
        Option::None => Option::None,
        Option::Some(s) => Option::Some(s@),
    }
}

/// What a stored value means: exactly "dark" and "light" are preferences;
/// anything else (or nothing) is no preference.
pub open spec fn spec_load(stored: Option<Seq<char>>) -> Option<ThemeMode> {
    match stored {
        Option::None => Option::None,
        Option::Some(s) => if s == "dark"@ {
            Option::Some(ThemeMode::Dark)
        } else if s == "light"@ {
            Option::Some(ThemeMode::Light)
        } else {
            Option::None
        },
    }
}

/// Interpret the value read from storage; `None` means no (valid) stored
/// preference and the caller falls back to the default.
pub fn load(stored: Option<&str>) -> (r: Option<ThemeMode>)
    ensures
        r == spec_load(stored_view(stored)),
{
    match stored {
        Option::None => Option::None,
        Option::Some(s) => if str_eq(s, "dark") {
            Option::Some(ThemeMode::Dark)
        } else if str_eq(s, "light") {
            Option::Some(ThemeMode::Light)
        } else {
            Option::None
        },
    }
}

/// The string persisted for a mode, also the tag `load` accepts back.
pub open spec fn spec_mode_str(m: ThemeMode) -> Seq<char> {
    match m {
        ThemeMode::Dark => "dark"@,
        ThemeMode::Light => "light"@,
    }
}

pub fn mode_str(m: ThemeMode) -> (s: &'static str)
    ensures
        s@ == spec_mode_str(m),
{
    match m {
        ThemeMode::Dark => "dark",
        ThemeMode::Light => "light",
    }
}

/// A persisted tag always loads back as the mode it was written for: what
/// `persist` stores, `load` round-trips.
pub proof fn lemma_mode_tag_round_trip(m: ThemeMode)
    ensures
        spec_load(Option::Some(spec_mode_str(m))) == Option::Some(m),
{
    reveal_strlit("dark");
    reveal_strlit("light");
    assert("dark"@.len() == 4 && "light"@.len() == 5);
}

/// The single storage key under which the preference is persisted.
pub fn storage_key() -> (k: &'static str)
    ensures
        k@ == "edgarcnp-theme"@,
{
    "edgarcnp-theme"
}

/// Whether the document's root element carries the dark marker class under
/// this mode: the decision `apply` acts on.
pub fn dark_class_on(m: ThemeMode) -> (b: bool)
    ensures
        b == (m is Dark),
{
    match m {
        ThemeMode::Dark => true,
        ThemeMode::Light => false,
    }
}

/// Mode chosen from the host's own light/dark signal. Deliberately not part
/// of the startup policy, which prefers the fixed default over probing the
/// environment; offered for callers that want the probe.
pub fn system_preference(prefers_dark: bool) -> (m: ThemeMode)
    ensures
        m == (if prefers_dark {
            ThemeMode::Dark
        } else {
            ThemeMode::Light
        }),
{
    if prefers_dark {
        ThemeMode::Dark
    } else {
        ThemeMode::Light
    }
}

/// Startup policy: a valid stored preference wins, else the fixed default.
pub open spec fn spec_initial_mode(stored: Option<Seq<char>>) -> ThemeMode {
    match spec_load(stored) {
        Option::Some(m) => m,
        Option::None => ThemeMode::Dark,
    }
}

/// The theme state owned by the page: the single writer of the current mode.
pub struct ThemePreference {
    pub mode: ThemeMode,
}

impl ThemePreference {
    /// Mount the state from whatever storage held.
    pub fn init(stored: Option<&str>) -> (p: Self)
        ensures
            p.mode == spec_initial_mode(stored_view(stored)),
    {
        let mode = match load(stored) {
            Option::Some(m) => m,
            Option::None => ThemeMode::Dark,
        };
        ThemePreference { mode }
    }

    /// Flip the in-memory mode and hand back the new value for the caller to
    /// apply and persist.
    pub fn toggle(&mut self) -> (next: ThemeMode)
        ensures
            final (self).mode == spec_toggle(old(self).mode),
            next == final (self).mode,
    {
        let next = toggle(self.mode);
        self.mode = next;
        next
    }

    /// Record the outcome of persisting the mode. Whether the write
    /// succeeded or failed, the in-memory state is untouched: persistence is
    /// a non-critical enhancement and its failure never surfaces.
    pub fn note_persist_outcome(&mut self, persisted: bool)
        ensures
            *final (self) == *old(self),
    {
        let _ = persisted;
    }
}

/// State after a toggle, at the specification level.
pub open spec fn spec_toggled(p: ThemePreference) -> ThemePreference {
    ThemePreference { mode: spec_toggle(p.mode) }
}

/// State after the persist outcome is recorded, at the specification level.
pub open spec fn spec_after_persist(p: ThemePreference, persisted: bool) -> ThemePreference {
    p
}

/// A failed (or successful) persist never undoes a toggle: after toggling
/// and recording any persist outcome, the mode is still the opposite of
/// where it started.
pub proof fn lemma_toggle_survives_persist_outcome(p: ThemePreference, persisted: bool)
    ensures
        spec_after_persist(spec_toggled(p), persisted).mode == spec_toggle(p.mode),
{
}

} // verus!
