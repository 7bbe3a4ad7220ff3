//! Choosing an installed kernel, staging it for an in-place switch, and
//! confirming before the switch: the boot directory's catalog, the matching of
//! auxiliary boot images, the commands of the two privileged operations, and
//! the selection state machine that sequences them.
pub mod catalog;
pub mod laws;
pub mod machine;
pub mod staging;
pub mod terminal;
pub mod text;
