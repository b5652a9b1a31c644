//! Bridge between a legacy X11 compatibility layer and a compositor's
//! surface model: a registry of windows with stable opaque surface ids,
//! a window lifecycle state machine, parent resolution for mapped
//! windows, and clipboard/primary selection arbitration. The surrounding
//! compositor feeds events in as plain values and carries the returned
//! notifications and protocol actions back out.

pub mod focus;
pub mod lifecycle;
pub mod messages;
pub mod parent;
pub mod registry;
pub mod selection;
