//! Decision logic of a directory watcher that notifies a webhook when an XML
//! file appears, and may overwrite the file with the webhook's answer.
pub mod config;
pub mod delivery;
pub mod dispatch;
pub mod paths;
pub mod suppression;
pub mod text;
