//! Lifecycle of one native top-level window: class registration, creation,
//! message routing, the message pump and ordered release of what the
//! operating system handed out.
//!
//! The library holds the decisions. The caller performs each operating
//! system call that the library asks for and hands back its raw result.

mod class_identity;
mod laws;
mod message;
mod window;

pub use class_identity::{is_class_identity, is_dash_position, is_lower_hex};
pub use laws::{
    apply, close_then_destroy_releases_once, destroy_notification_ends_pump, initialization_is_once,
    run, teardown_is_idempotent, teardown_is_ordered, Call,
};
pub use message::{route_message, route_spec, MessageAction, WM_CLOSE, WM_DESTROY};
pub use window::{
    advance_next, initialize_next, is_initializing, message_next, pump_started, retrieval_next,
    show_spec, teardown_next, teardown_plan, teardown_state, InitError, InitOutcome, InitStep,
    LifecycleState, PumpAction, Release, Window, WindowView,
};
