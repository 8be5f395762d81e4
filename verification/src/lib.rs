//! The core of a full-screen terminal file browser: content panes shown
//! through scrollable viewports, and the session that switches between them.
//!
//! Nothing in this crate touches the terminal or the file system. A host
//! program reads keys and directory listings, hands them in as plain values,
//! and carries out the actions that the session asks for.
pub mod color;
pub mod copy;
pub mod directory;
pub mod entry;
pub mod input;
pub mod log;
pub mod pane;
pub mod path;
pub mod provider;
pub mod ui;
pub mod viewport;

pub use directory::Directory;
pub use entry::{EntryKind, FsEntry, Listing, Metadata};
pub use input::Input;
pub use log::{Log, Logger};
pub use pane::Pane;
pub use provider::{CopyTarget, Drawable, Provider};
pub use ui::UI;
pub use viewport::View;
