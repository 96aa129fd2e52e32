use vstd::prelude::*;

verus! {

/// The single active screen, owned and mutated exclusively by the external
/// application-state holder; exactly one panel renderer runs per redraw,
/// selected solely by this value.
#[derive(Clone, Copy, PartialEq, Eq, Structural, Debug)]
pub enum Mode {
    Command,
    Sessions,
    Power,
    Users,
    Processing,
    Prompt,
}

/// chrono's locale identifier, declared so the snapshot can carry it,
/// opaquely, to the time formatter.
#[verifier::external_type_specification]
#[verifier::external_body]
pub struct ExLocale(chrono::Locale);

/// Localized labels, resolved by the caller's message catalog; this layer
/// consumes only their text and displayed length, never their resolution
/// mechanism.
pub struct Messages {
    pub action_reset: String,
    pub action_command: String,
    pub action_session: String,
    pub action_power: String,
    pub status_command: String,
    pub status_caps: String,
    pub title_command: String,
    pub new_command: String,
    pub date_format: String,
}

/// Read-only snapshot of the application state for one redraw cycle. The
/// caller holds the exclusive lock on the live state for the whole cycle
/// and hands this layer one consistent view of it.
pub struct StateSnapshot {
    pub mode: Mode,
    pub window_padding: u16,
    pub container_padding: u16,
    pub container_width: u16,
    pub container_height: u16,
    pub command: Option<String>,
    pub new_command: String,
    pub time_enabled: bool,
    pub time_format: Option<String>,
    pub locale: chrono::Locale,
    pub capslock: bool,
    pub suppress_cursor: bool,
    pub messages: Messages,
}

/// Machine bounds on the snapshot texts that enter coordinate arithmetic:
/// a label or input longer than a terminal row's worth of cells cannot be
/// addressed by a terminal cursor anyway.
pub open spec fn snapshot_wf(s: StateSnapshot) -> bool {
    s.new_command@.len() <= u16::MAX && s.messages.new_command@.len() <= u16::MAX
}

} // verus!
