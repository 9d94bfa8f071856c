//! Parts of the radio link that the core keeps.

pub mod pfd;
