//! The calendar in model-view-update form: messages, the model they act on
//! and the update function that applies one message.

pub mod message;
pub mod model;
pub mod update;
