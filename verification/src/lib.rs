//! Verified command layer for a password-manager CLI adapter.
//!
//! The library builds the argument lists and per-invocation environment for
//! the external `op` command-line tool, decides when an invocation may not be
//! attempted (missing credential), interprets the tool's exit status and
//! captured output, and maps its JSON responses into typed records. The
//! spawning of the external process itself is left to the embedding
//! application; everything the library computes is specified and verified.

pub mod command;
pub mod error;
pub mod external;
pub mod json;
pub mod model;
pub mod parse;

pub use command::{CliRequest, EnvPlan, Unofficial1Password};
pub use error::{OpError, OpErrorView};
pub use json::Json;
pub use model::{create_basic_vault, Field, FieldView, OPVault, OPVaultView, Url, UrlView, User, UserView};
pub use model::{Vault, VaultItem, VaultItemView, VaultView};
