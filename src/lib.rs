//! Offline customization of a virtual-machine disk image: the image is exposed
//! as a block device, its partitions are mounted, a package is installed in the
//! guest through an isolated root, and every acquired resource is released in
//! reverse order on every path out of the run.
//!
//! The library decides; the caller performs. `pipeline::Pipeline` names the next
//! action, and the caller reports back what came of it.

pub mod block;
pub mod command;
pub mod mounts;
pub mod naming;
pub mod pipeline;
pub mod release;
pub mod repository;
pub mod resolver;
pub mod run;
pub mod teardown;
pub mod text;
