//! Dumping the records of a game-data container into a tree of text files, packing such
//! a tree back into a container, and keeping the plugin lists of the engine's and the
//! game's configuration files.

pub mod config;
pub mod dump;
pub mod error;
pub mod filter;
pub mod format;
pub mod manager;
pub mod order;
pub mod pack;
pub mod record;
pub mod rewrite;
pub mod roundtrip;
pub mod sequences;
pub mod text;

pub use crate::config::check_cfg_path;
pub use crate::config::cleanup;
pub use crate::config::copy_files;
pub use crate::config::get_plugins;
pub use crate::config::parse_cfg;
pub use crate::config::Manifest;
pub use crate::dump::dump;
pub use crate::dump::dump_plugin;
pub use crate::format::ESerializedType;
pub use crate::manager::EScale;
pub use crate::manager::ModInfo;
pub use crate::pack::pack;
pub use crate::rewrite::export;
pub use crate::rewrite::import;
pub use crate::rewrite::update_cfg;
