//! Core logic of a hotkey-driven prompt picker: a global hotkey shows an
//! overlay bar of canned prompts, and picking one types it into whatever
//! application was focused before the bar appeared.
//!
//! The library owns the decisions of that flow and proves them: the focus
//! memory that records the previously frontmost application, the planning of
//! overlay and popup transitions, the injection state machine, and the hotkey
//! registration tally. The host shell performs the planned OS-facing actions
//! (window calls, shell queries, keystroke synthesis) and feeds their
//! outcomes back as events.

pub mod errors;
pub mod focus;
pub mod hotkeys;
pub mod inject;
pub mod overlay;
