//! A disposable filesystem sandbox for test suites.
//!
//! A [`TmpFs`] owns a uniquely named temporary directory and offers
//! operations to populate, mutate and inspect it: write and read files,
//! rename, delete, create symbolic links, set modification timestamps,
//! recursively enumerate entries, and bulk-copy an asset tree into it.
//! The directory is deleted when the owning value goes out of scope,
//! unless persistence was requested at creation.
//!
//! All sandbox-relative paths are UTF-8 text; path arithmetic (joining,
//! parent and final components) is specified exactly over character
//! sequences.

pub mod assets;
pub mod fsio;
pub mod paths;
pub mod replace;
pub mod sandbox;

pub use assets::{AssetDir, AssetEntry, AssetFile, CopyStep, StepView};
pub use paths::join_str;
pub use sandbox::{SetupError, TmpFs};
