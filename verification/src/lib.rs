//! Linux containers on Apple's Containerization framework, each in its own
//! lightweight VM: what a caller describes (a container to boot, a process to
//! run in one, an image to build), the image store those live in, and every
//! value the framework's bridge is handed or answers.
//!
//! [`Builder`] turns a [`BuildPlan`] into an image in the [`Store`].
//! [`Session`] boots a [`BootSpec`]'s container from one and runs
//! [`ExecRequest`]s in it. Both write what the bridge is handed and read what
//! it answers ([`Reply`]); making the call, and reading the store's files, is
//! left to the caller.

pub mod bridge;
pub mod builder;
pub mod error;
pub mod json;
pub mod labels;
pub mod model;
pub mod session;
pub mod stdio;
pub mod store;
pub mod text;
pub mod wire;

pub use crate::bridge::{checked, Reply, FAILED};
pub use crate::builder::Builder;
pub use crate::error::Error;
pub use crate::labels::Labels;
pub use crate::model::{
    BootSpec, BuildMount, BuildPlan, BuildStep, CachePolicy, Direction, ExecRequest, Mount, Network,
    Resources, Shell, SocketRelay,
};
pub use crate::session::{unsupported, BootCall, ExecCall, Session};
pub use crate::stdio::{Stdio, UNATTACHED};
pub use crate::store::{
    Index, Probe, Store, StoreError, INITFS_REFERENCE, INITFS_VERSION, KERNEL_VERSION,
};
