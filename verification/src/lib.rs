//! Host-side operations of a small desktop tool for visual-regression
//! baselines: greeting the user, picking the image files out of a folder
//! listing, reporting the working directory, reading `git status`, and
//! publishing updated baselines with `git add`, `git commit` and `git push`.
//!
//! The library never touches the file system and never starts a process.
//! Each operation is split in two: the host reads a directory, asks the
//! operating system or runs a command, and hands what came back to a function
//! here, which decides the reply. Every function states its reply exactly,
//! and the statements are proved. One call is taken on trust: the lossy
//! decoding of bytes to text by the standard library, in [`status`].

pub mod greeting;
pub mod host;
pub mod images;
pub mod publish;
pub mod status;
mod text;
pub mod workdir;
