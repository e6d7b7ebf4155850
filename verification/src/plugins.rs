//! The plugins that come with the library.
pub mod block_resources;
pub mod init_script;
pub mod stealth;
