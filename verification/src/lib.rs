//! Decision logic behind a collaborative editor's call UI: the titlebar's
//! sharing controls, collaborator avatar row and connection indicator, and
//! the transient notification for an incoming call.
//!
//! The widgets themselves live with the UI toolkit; this crate holds the
//! state machines and selection rules they consult, stated over plain values
//! and verified.

pub mod incoming_call;
pub mod titlebar;
