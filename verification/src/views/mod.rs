//! The terminal views: their state, and what they do with a key press.
pub mod event;
pub mod table_view;
pub mod bottombar_view;
pub mod foo_view;
pub mod key_codes;
pub mod log_view;
