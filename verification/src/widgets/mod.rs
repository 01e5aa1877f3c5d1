//! State and rules of the themed widgets: badges, frames and modals.

pub mod badge;
pub mod frame;
pub mod modal;
