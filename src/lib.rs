//! A tree of files and folders: sizes computed over the tree and an indented listing of it.

pub mod file;
pub mod folder;
pub mod laws;
pub mod text;

pub use file::File;
pub use folder::{FileSystemItem, Folder};
