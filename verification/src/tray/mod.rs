pub mod notifications;
pub mod menu;
pub mod launch;
pub mod watcher;
