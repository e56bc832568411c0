//! What a caller describes to this crate: a container to boot, a process to run
//! in one, and an image to build.
//!
//! Plain data, and platform-free. Paths are held as the text they display as.

use vstd::prelude::*;
use vstd::string::StringExecFns;
use crate::labels::Labels;
use crate::stdio::Stdio;
use crate::text::views;

verus! {

/// What a VM is given. Always set by the caller: nothing here defaults it,
/// because a sensible size depends on the workload, not on the framework.
#[derive(Clone, Copy, Debug, PartialEq, Eq)]
pub struct Resources {
    pub cpus: u32,
    pub memory_in_bytes: u64,
}

/// A host directory shared into the guest.
#[derive(Clone, Debug, PartialEq, Eq)]
pub struct Mount {
    pub readonly: bool,
    pub source: String,
    pub target: String,
}

/// Which way a relayed socket is reached.
#[derive(Clone, Copy, Debug, PartialEq, Eq)]
pub enum Direction {
    /// The guest connects; the listener is on the host.
    IntoGuest,
    /// The host connects; the listener is in the guest.
    OutOfGuest,
}

/// A unix socket relayed between host and guest.
///
/// Not a [`Mount`]: mounting a socket relays nothing, so Containerization
/// configures relays separately.
#[derive(Clone, Debug, PartialEq, Eq)]
pub struct SocketRelay {
    pub source: String,
    pub target: String,
    /// Mode of the socket this creates. `0o666` lets an unprivileged guest user
    /// open one the guest owns as root; narrow it when that user is known.
    pub mode: u32,
    pub direction: Direction,
}

impl SocketRelay {
    /// A host socket the guest reaches, world-accessible inside the guest.
    pub fn into_guest(source: &str, target: &str) -> (relay: SocketRelay)
        ensures
            relay.source@ == source@,
            relay.target@ == target@,
            relay.mode == 0o666,
            relay.direction == Direction::IntoGuest,
    {
        SocketRelay {
            source: String::from_str(source),
            target: String::from_str(target),
            mode: 0o666,
            direction: Direction::IntoGuest,
        }
    }
}

/// The guest's only network interface: Virtualization.framework's built-in NAT.
///
/// Static, because nothing hands out leases; the caller allocates. Collisions
/// with other guests on the shared network go undetected.
#[derive(Clone, Debug, PartialEq, Eq)]
pub struct Network {
    /// The guest's address, as CIDR.
    pub ipv4_address: String,
    pub ipv4_gateway: String,
}

/// A container to create and start.
///
/// Mounts keep their declared order, which matters for nested paths. Sockets
/// are relayed after them; nothing nests in a socket, so that is safe.
#[derive(Clone, Debug, PartialEq, Eq)]
pub struct BootSpec {
    /// The container's id, and its directory in the store.
    pub name: String,
    /// Registry-qualified: nothing expands `debian:stable-slim`.
    pub image: String,
    pub resources: Resources,
    /// The container's first process. It outlives every `exec`, so a workload
    /// that exits takes the container with it.
    pub arguments: Vec<String>,
    /// `NAME=VALUE`, already resolved. Nothing here reads the host environment.
    pub environment: Vec<String>,
    pub mounts: Vec<Mount>,
    pub sockets: Vec<SocketRelay>,
    pub workdir: Option<String>,
    pub network: Network,
    /// Ceiling for an image's unpacked rootfs. Sparse, so a ceiling rather than
    /// an allocation, but no container may outgrow it.
    pub rootfs_capacity_in_bytes: u64,
}

impl BootSpec {
    /// `ContainerManager`'s own default rootfs ceiling: 8 GiB.
    pub const DEFAULT_ROOTFS_CAPACITY_IN_BYTES: u64 = 8589934592;

    /// A container with nothing mounted, no arguments or environment, no
    /// working directory, and the default rootfs ceiling.
    pub fn new(name: &str, image: &str, resources: Resources, network: Network) -> (spec: BootSpec)
        ensures
            spec.name@ == name@,
            spec.image@ == image@,
            spec.resources == resources,
            spec.arguments@.len() == 0,
            spec.environment@.len() == 0,
            spec.mounts@.len() == 0,
            spec.sockets@.len() == 0,
            spec.workdir is None,
            spec.network == network,
            spec.rootfs_capacity_in_bytes == BootSpec::DEFAULT_ROOTFS_CAPACITY_IN_BYTES,
    {
        BootSpec {
            name: String::from_str(name),
            image: String::from_str(image),
            resources,
            arguments: Vec::new(),
            environment: Vec::new(),
            mounts: Vec::new(),
            sockets: Vec::new(),
            workdir: None,
            network,
            rootfs_capacity_in_bytes: BootSpec::DEFAULT_ROOTFS_CAPACITY_IN_BYTES,
        }
    }
}

/// A process to run in an already-booted container.
#[derive(Clone, Debug, PartialEq, Eq)]
pub struct ExecRequest {
    /// The container to run it in.
    pub name: String,
    /// Distinguishes concurrent processes in one container; a resize names it.
    pub id: String,
    pub arguments: Vec<String>,
    /// `NAME=VALUE`. Applied over the image's own, so these win.
    pub environment: Vec<String>,
    /// The guest user, as the image names it. `None` is the image's default.
    pub user: Option<String>,
    pub workdir: Option<String>,
    /// `TERM` for a process on a terminal. Ignored without one.
    pub term: Option<String>,
    /// The descriptors the process runs against.
    pub stdio: Stdio,
}

impl ExecRequest {
    /// What a terminal reports itself as when the caller says nothing.
    pub const DEFAULT_TERM: &'static str = "xterm";

    /// A process with no extra environment, the image's user and working
    /// directory, and [`ExecRequest::DEFAULT_TERM`].
    pub fn new(name: &str, id: &str, arguments: Vec<String>, stdio: Stdio) -> (request: ExecRequest)
        ensures
            request.name@ == name@,
            request.id@ == id@,
            request.arguments@ == arguments@,
            request.environment@.len() == 0,
            request.user is None,
            request.workdir is None,
            request.term matches Some(term) && term@ == ExecRequest::DEFAULT_TERM@,
            request.stdio == stdio,
    {
        ExecRequest {
            name: String::from_str(name),
            id: String::from_str(id),
            arguments,
            environment: Vec::new(),
            user: None,
            workdir: None,
            term: Some(String::from_str(ExecRequest::DEFAULT_TERM)),
            stdio,
        }
    }
}

/// One build step: a named `RUN`.
#[derive(Clone, Debug, PartialEq, Eq)]
pub struct BuildStep {
    /// The step's label in the build log. Not part of its cache key.
    pub name: String,
    pub script: String,
    /// The guest user, as the image names it. `None` is root.
    pub user: Option<String>,
    /// The rootfs once this step has run. Opaque here: the caller derives
    /// these and this crate only carries them.
    pub cache_key: String,
}

/// A host directory shared into every step of a build: what a step reads in
/// place of `COPY`.
#[derive(Clone, Debug, PartialEq, Eq)]
pub struct BuildMount {
    pub destination: String,
    pub readonly: bool,
    pub source: String,
}

/// What runs a step's script, with the script appended as the final argument.
///
/// The default is `bash -euo pipefail -c`, not `sh -c`: a silent mid-step
/// failure would be baked into the image. It requires bash in the base; pass
/// `["/bin/sh", "-ec"]` for a base without one.
#[derive(Clone, Debug, PartialEq, Eq)]
pub struct Shell(pub Vec<String>);

/// The default shell's arguments.
pub open spec fn default_shell() -> Seq<Seq<char>> {
    seq!["/bin/bash"@, "-euo"@, "pipefail"@, "-c"@]
}

impl Default for Shell {
    fn default() -> (shell: Shell)
        ensures
            views(shell.0@) == default_shell(),
    {
        let mut arguments: Vec<String> = Vec::new();
        arguments.push(String::from_str("/bin/bash"));
        arguments.push(String::from_str("-euo"));
        arguments.push(String::from_str("pipefail"));
        arguments.push(String::from_str("-c"));
        assert(views(arguments@) =~= default_shell());
        Shell(arguments)
    }
}

/// How a build treats its rootfs snapshots.
///
/// Snapshots are written whether or not they are read, so a build with
/// `restore` off still leaves the next one something to resume from.
#[derive(Clone, Debug, PartialEq, Eq)]
pub struct CachePolicy {
    /// Resume from the deepest matching snapshot. Off is `--no-cache`.
    pub restore: bool,
    /// Snapshots kept, most recently used first.
    pub keep: usize,
    /// Anything unused this many seconds goes regardless.
    pub keep_for_seconds: u64,
}

/// Restore, keep 24 snapshots, and drop any unused for two weeks.
pub open spec fn default_cache_policy() -> CachePolicy {
    CachePolicy { restore: true, keep: 24, keep_for_seconds: (14 * 24 * 60 * 60) as u64 }
}

impl Default for CachePolicy {
    fn default() -> (policy: CachePolicy)
        ensures
            policy == default_cache_policy(),
    {
        CachePolicy { restore: true, keep: 24, keep_for_seconds: 14 * 24 * 60 * 60 }
    }
}

/// An image to build: a base, steps, and what the result runs as.
#[derive(Clone, Debug, PartialEq, Eq)]
pub struct BuildPlan {
    /// The builder container's id, and its directory in the store, removed
    /// before and after the build. Distinct per concurrent build.
    pub name: String,
    /// Registry-qualified. Every step runs on top of it.
    pub base: String,
    /// What the finished image is registered as.
    pub tag: String,
    /// The builder's own resources, not those of a container run from the image.
    pub resources: Resources,
    /// Host directories shared into every step.
    pub mounts: Vec<BuildMount>,
    pub steps: Vec<BuildStep>,
    /// `NAME=VALUE`, visible to every step and written into the image config.
    pub environment: Vec<String>,
    /// Written into the image config as its OCI labels.
    pub labels: Labels,
    /// The user and directory the finished image runs as. `None` keeps the base's.
    pub user: Option<String>,
    pub workdir: Option<String>,
    pub network: Network,
    /// The rootfs before any step.
    pub base_key: String,
    /// Ceiling for the builder's rootfs. Every step's result must fit.
    pub rootfs_capacity_in_bytes: u64,
    pub cache: CachePolicy,
    /// What runs each step's script.
    pub shell: Shell,
    /// The builder's first process, which must outlive every step.
    pub keepalive: Vec<String>,
    /// Delete unreferenced blobs and the unpacked rootfs of removed images once
    /// the build has stored its result.
    pub reclaim: bool,
}

/// The default keepalive: a shell that sleeps forever.
pub open spec fn default_keepalive() -> Seq<Seq<char>> {
    seq!["/bin/sh"@, "-c"@, "while :; do sleep 86400; done"@]
}

impl BuildPlan {
    /// Holds the builder open while steps run as `exec`s.
    pub fn default_keepalive() -> (keepalive: Vec<String>)
        ensures
            views(keepalive@) == default_keepalive(),
    {
        let mut keepalive: Vec<String> = Vec::new();
        keepalive.push(String::from_str("/bin/sh"));
        keepalive.push(String::from_str("-c"));
        keepalive.push(String::from_str("while :; do sleep 86400; done"));
        assert(views(keepalive@) =~= default_keepalive());
        keepalive
    }

    /// A plan with no mounts, steps, environment or labels, the base's user and
    /// working directory, the default ceiling, cache policy, shell and
    /// keepalive, and reclaiming on.
    pub fn new(
        name: &str,
        base: &str,
        tag: &str,
        resources: Resources,
        network: Network,
        base_key: &str,
    ) -> (plan: BuildPlan)
        ensures
            plan.name@ == name@,
            plan.base@ == base@,
            plan.tag@ == tag@,
            plan.resources == resources,
            plan.mounts@.len() == 0,
            plan.steps@.len() == 0,
            plan.environment@.len() == 0,
            plan.labels.pairs().len() == 0,
            plan.user is None,
            plan.workdir is None,
            plan.network == network,
            plan.base_key@ == base_key@,
            plan.rootfs_capacity_in_bytes == BootSpec::DEFAULT_ROOTFS_CAPACITY_IN_BYTES,
            plan.cache == default_cache_policy(),
            views(plan.shell.0@) == default_shell(),
            views(plan.keepalive@) == default_keepalive(),
            plan.reclaim,
    {
        BuildPlan {
            name: String::from_str(name),
            base: String::from_str(base),
            tag: String::from_str(tag),
            resources,
            mounts: Vec::new(),
            steps: Vec::new(),
            environment: Vec::new(),
            labels: Labels::new(),
            user: None,
            workdir: None,
            network,
            base_key: String::from_str(base_key),
            rootfs_capacity_in_bytes: BootSpec::DEFAULT_ROOTFS_CAPACITY_IN_BYTES,
            cache: CachePolicy::default(),
            shell: Shell::default(),
            keepalive: BuildPlan::default_keepalive(),
            reclaim: true,
        }
    }
}

} // verus!
