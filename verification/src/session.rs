//! Booting a container, and running processes in it.
//!
//! A container lives in the process that booted it, not a daemon, so it exists
//! exactly as long as that process. This module writes what the bridge's boot,
//! exec, resize and unpack queries are handed, and reads what they answer.

use vstd::prelude::*;
use vstd::string::StringExecFns;
use crate::bridge::{checked, reply_outcome, Reply};
use crate::builder::{as_i32, wrap_i32};
use crate::error::Error;
use crate::model::{BootSpec, ExecRequest};
use crate::store::{joined_path, lists_images, Index, Store, StoreError, INITFS_REFERENCE, INITFS_VERSION, KERNEL, KERNEL_VERSION};
use crate::text::{joined, views};
use crate::wire::{lines, mount_line, mounts, socket_line, sockets, working_directory};

verus! {

/// Every argument of the bridge's boot, in its order.
#[derive(Clone, Debug, PartialEq, Eq)]
pub struct BootCall {
    pub name: String,
    pub store_root: String,
    pub kernel_path: String,
    pub initfs_reference: String,
    pub image_reference: String,
    pub cpus: i32,
    pub memory_in_bytes: u64,
    pub rootfs_capacity_in_bytes: u64,
    pub mounts: String,
    pub sockets: String,
    pub environment: String,
    pub arguments: String,
    pub working_directory: String,
    pub ipv4_address: String,
    pub ipv4_gateway: String,
}

/// Every argument of the bridge's exec, in its order. `user` and `term` are
/// empty for the image's own.
#[derive(Clone, Debug, PartialEq, Eq)]
pub struct ExecCall {
    pub name: String,
    pub id: String,
    pub arguments: String,
    pub environment: String,
    pub user: String,
    pub working_directory: String,
    pub term: String,
    pub terminal: i32,
    pub stdin: i32,
    pub stdout: i32,
    pub stderr: i32,
}

/// What an optional string crosses as: itself, or empty.
pub open spec fn or_empty(value: Option<String>) -> Seq<char> {
    match value {
        Some(s) => s@,
        None => Seq::empty(),
    }
}

/// The guest's working directory as it crosses: itself, or `/`.
pub open spec fn directory_or_root(value: Option<String>) -> Seq<char> {
    match value {
        Some(s) => s@,
        None => "/"@,
    }
}

/// The text of `Session::version`.
pub open spec fn version_text() -> Seq<char> {
    "Containerization "@ + INITFS_VERSION@ + ", kernel "@ + KERNEL_VERSION@
}

/// What every bridge call answers on a platform without the framework.
pub fn unsupported() -> (error: Error)
    ensures
        error matches Error::Unavailable { action, message }
            && action@ == "use Containerization.framework"@ && message@ == "it is macOS only"@,
{
    Error::unavailable("use Containerization.framework", "it is macOS only")
}

fn optional_text(value: &Option<String>) -> (text: String)
    ensures
        text@ == or_empty(*value),
{
    match value {
        Some(s) => s.clone(),
        None => String::new(),
    }
}

/// Boots containers from a store and runs processes in them, through the bridge.
#[derive(Clone, Debug, PartialEq, Eq)]
pub struct Session {
    store: Store,
}

impl Session {
    /// The store the session boots from.
    pub closed spec fn spec_store(self) -> Store {
        self.store
    }

    pub fn new(store: Store) -> (session: Session)
        ensures
            session.spec_store() == store,
    {
        Session { store }
    }

    pub fn store(&self) -> (store: &Store)
        ensures
            *store == self.spec_store(),
    {
        &self.store
    }

    /// What the bridge's boot is handed for `spec`: the store's root and
    /// kernel, the init image, and the container with its lists a line per
    /// element, its mounts and sockets as [`mount_line`]s and
    /// [`socket_line`]s, and its cpu count as the `i32` with the same bits.
    pub fn boot_call(&self, spec: &BootSpec) -> (call: BootCall)
        ensures
            call.name@ == spec.name@,
            call.store_root@ == self.spec_store().spec_root(),
            call.kernel_path@ == joined_path(self.spec_store().spec_root(), KERNEL@),
            call.initfs_reference@ == INITFS_REFERENCE@,
            call.image_reference@ == spec.image@,
            call.cpus == as_i32(spec.resources.cpus),
            call.memory_in_bytes == spec.resources.memory_in_bytes,
            call.rootfs_capacity_in_bytes == spec.rootfs_capacity_in_bytes,
            call.mounts@ == joined(spec.mounts@.map_values(|m| mount_line(m)), "\n"@),
            call.sockets@ == joined(spec.sockets@.map_values(|s| socket_line(s)), "\n"@),
            call.environment@ == joined(views(spec.environment@), "\n"@),
            call.arguments@ == joined(views(spec.arguments@), "\n"@),
            call.working_directory@ == directory_or_root(spec.workdir),
            call.ipv4_address@ == spec.network.ipv4_address@,
            call.ipv4_gateway@ == spec.network.ipv4_gateway@,
    {
        let mount_lines = mounts(&spec.mounts);
        assert(views(mount_lines@) =~= spec.mounts@.map_values(|m| mount_line(m)));
        let socket_lines = sockets(&spec.sockets);
        assert(views(socket_lines@) =~= spec.sockets@.map_values(|s| socket_line(s)));
        let workdir = match &spec.workdir {
            Some(path) => Some(path.as_str()),
            None => None,
        };
        BootCall {
            name: spec.name.clone(),
            store_root: String::from_str(self.store.root()),
            kernel_path: self.store.kernel(),
            initfs_reference: String::from_str(INITFS_REFERENCE),
            image_reference: spec.image.clone(),
            cpus: wrap_i32(spec.resources.cpus),
            memory_in_bytes: spec.resources.memory_in_bytes,
            rootfs_capacity_in_bytes: spec.rootfs_capacity_in_bytes,
            mounts: lines(&mount_lines),
            sockets: lines(&socket_lines),
            environment: lines(&spec.environment),
            arguments: lines(&spec.arguments),
            working_directory: working_directory(workdir),
            ipv4_address: spec.network.ipv4_address.clone(),
            ipv4_gateway: spec.network.ipv4_gateway.clone(),
        }
    }

    /// The boot's outcome, from the bridge's answer to [`Session::boot_call`]:
    /// a failure is named `boot {name}`. The booted VM is owned by the process
    /// that booted it.
    pub fn boot(&self, spec: &BootSpec, reply: &Reply) -> (booted: Result<(), Error>)
        ensures
            match reply_outcome(*reply) {
                Ok(_) => booted is Ok,
                Err(said) => booted matches Err(Error::Failed { action, message })
                    && action@ == "boot "@ + spec.name@ && message@ == said,
            },
    {
        match checked(reply) {
            Ok(_) => Ok(()),
            Err(message) => {
                let mut action = String::from_str("boot ");
                action.append(spec.name.as_str());
                Err(Error::failed(action.as_str(), message.as_str()))
            },
        }
    }

    /// What the bridge's exec is handed for `request`.
    pub fn exec_call(&self, request: &ExecRequest) -> (call: ExecCall)
        ensures
            call.name@ == request.name@,
            call.id@ == request.id@,
            call.arguments@ == joined(views(request.arguments@), "\n"@),
            call.environment@ == joined(views(request.environment@), "\n"@),
            call.user@ == or_empty(request.user),
            call.working_directory@ == directory_or_root(request.workdir),
            call.term@ == or_empty(request.term),
            call.terminal == request.stdio.terminal,
            call.stdin == request.stdio.stdin,
            call.stdout == request.stdio.stdout,
            call.stderr == request.stdio.stderr,
    {
        let workdir = match &request.workdir {
            Some(path) => Some(path.as_str()),
            None => None,
        };
        ExecCall {
            name: request.name.clone(),
            id: request.id.clone(),
            arguments: lines(&request.arguments),
            environment: lines(&request.environment),
            user: optional_text(&request.user),
            working_directory: working_directory(workdir),
            term: optional_text(&request.term),
            terminal: request.stdio.terminal,
            stdin: request.stdio.stdin,
            stdout: request.stdio.stdout,
            stderr: request.stdio.stderr,
        }
    }

    /// The process's exit code, from the bridge's answer to
    /// [`Session::exec_call`], which comes once the process has exited; a
    /// failure is named `exec`.
    pub fn exec(&self, reply: &Reply) -> (exited: Result<i32, Error>)
        ensures
            match reply_outcome(*reply) {
                Ok(code) => exited == Ok::<i32, Error>(code),
                Err(said) => exited matches Err(Error::Failed { action, message })
                    && action@ == "exec"@ && message@ == said,
            },
    {
        match checked(reply) {
            Ok(code) => Ok(code),
            Err(message) => Err(Error::failed("exec", message.as_str())),
        }
    }

    /// The outcome of telling the guest that the terminal process `id` reads
    /// changed size; a failure is named `resize {id}`.
    pub fn resize(&self, id: &str, reply: &Reply) -> (resized: Result<(), Error>)
        ensures
            match reply_outcome(*reply) {
                Ok(_) => resized is Ok,
                Err(said) => resized matches Err(Error::Failed { action, message })
                    && action@ == "resize "@ + id@ && message@ == said,
            },
    {
        match checked(reply) {
            Ok(_) => Ok(()),
            Err(message) => {
                let mut action = String::from_str("resize ");
                action.append(id);
                Err(Error::failed(action.as_str(), message.as_str()))
            },
        }
    }

    /// Whether a boot can skip unpacking the image, from the bridge's answer
    /// for the store's root and the image: `1` is yes. A failure is named
    /// `find the image`.
    pub fn is_unpacked(&self, reply: &Reply) -> (unpacked: Result<bool, Error>)
        ensures
            match reply_outcome(*reply) {
                Ok(code) => unpacked == Ok::<bool, Error>(code == 1),
                Err(said) => unpacked matches Err(Error::Failed { action, message })
                    && action@ == "find the image"@ && message@ == said,
            },
    {
        match checked(reply) {
            Ok(code) => Ok(code == 1),
            Err(message) => Err(Error::failed("find the image", message.as_str())),
        }
    }

    /// Every image the store holds, as `name:tag`, from its index; there is no
    /// daemon to ask.
    pub fn images(&self, index: &Index) -> (images: Result<Vec<String>, StoreError>)
        ensures
            lists_images(self.spec_store().spec_root(), *index, images),
    {
        self.store.images(index)
    }

    /// The pinned Containerization release and kernel, which are pinned
    /// separately and whose mismatch would fail only at runtime.
    pub fn version() -> (version: String)
        ensures
            version@ == version_text(),
    {
        let mut version = String::from_str("Containerization ");
        version.append(INITFS_VERSION);
        version.append(", kernel ");
        version.append(KERNEL_VERSION);
        version
    }
}

} // verus!
