//! Configuration resolution and transfer planning for a small file-server client.
//!
//! The persisted record and the environment are read elsewhere and handed in as
//! plain values; this crate decides which values are in effect and which URLs and
//! requests a transfer uses.

pub mod conf;
pub mod serv;

pub use conf::{EnvOverrides, ToolConfig};
pub use serv::{create_active_folder, download, upload_file, upload_target, MkdirRequest, TransferError, UploadPlan};
