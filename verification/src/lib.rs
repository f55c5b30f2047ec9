pub mod config;
pub mod funbox;
pub mod log;
pub mod ovh;
pub mod reconcile;
pub mod text;
pub mod trusted;
pub mod util;
