pub mod api;
pub mod bio;
pub mod db;
pub mod fsm;
pub mod i18n;
pub mod markdown;
pub mod recorder;
pub mod report;
pub mod session;
pub mod stamps;
pub mod text;
pub mod translations;
pub mod watcher;
