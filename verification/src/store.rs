//! Where the boot artefacts live.
//!
//! Containerization's `ImageStore` layout, which `ContainerManager` opens as-is:
//! an image index in `state.json`, blobs under `content/blobs/sha256`, the
//! kernel under `kernels`, and one rootfs per container under `containers/<id>`.
//!
//! Nothing here touches the disk: what the disk holds is handed in, as a
//! [`Probe`] or an [`Index`], and this module decides what it means.

use vstd::prelude::*;
use vstd::string::{StrSliceExecFns, StringExecFns};
use crate::labels::ascending_keys;
use crate::text::views;

verus! {

/// The release of the initfs carrying `vminitd`, the agent the framework talks
/// to over vsock. Must match the Containerization release the bridge is built
/// against: they share a protocol, and a mismatch fails at runtime.
pub const INITFS_VERSION: &'static str = "0.45.0";

/// The init image a boot needs, at [`INITFS_VERSION`].
pub const INITFS_REFERENCE: &'static str = "ghcr.io/apple/containerization/vminit:0.45.0";

/// The kernel release `provision` fetches: Kata Containers' static build.
pub const KERNEL_VERSION: &'static str = "3.17.0";

/// Where the kernel comes from, at [`KERNEL_VERSION`].
pub const KERNEL_URL: &'static str = "https://github.com/kata-containers/kata-containers/releases/download/3.17.0/kata-static-3.17.0-arm64.tar.xz";

/// The kernel's path inside that archive.
pub const KERNEL_IN_ARCHIVE: &'static str = "opt/kata/share/kata-containers/vmlinux.container";

/// The kernel, relative to the store's root.
pub const KERNEL: &'static str = "kernels/default.kernel-arm64";

/// The image index, relative to the store's root: a map of reference to OCI descriptor.
pub const INDEX: &'static str = "state.json";

/// The directory of per-container rootfs clones, relative to the store's root.
pub const CONTAINERS: &'static str = "containers";

/// The pinned references name the versions they are pinned at.
pub proof fn lemma_pins_agree()
    ensures
        INITFS_REFERENCE@ == "ghcr.io/apple/containerization/vminit:"@ + INITFS_VERSION@,
        KERNEL_URL@ == "https://github.com/kata-containers/kata-containers/releases/download/"@
            + KERNEL_VERSION@ + "/kata-static-"@ + KERNEL_VERSION@ + "-arm64.tar.xz"@,
{
    reveal_strlit("ghcr.io/apple/containerization/vminit:0.45.0");
    reveal_strlit("ghcr.io/apple/containerization/vminit:");
    reveal_strlit("0.45.0");
    reveal_strlit("https://github.com/kata-containers/kata-containers/releases/download/3.17.0/kata-static-3.17.0-arm64.tar.xz");
    reveal_strlit("https://github.com/kata-containers/kata-containers/releases/download/");
    reveal_strlit("3.17.0");
    reveal_strlit("/kata-static-");
    reveal_strlit("-arm64.tar.xz");
    assert(INITFS_REFERENCE@ =~= "ghcr.io/apple/containerization/vminit:"@ + INITFS_VERSION@);
    assert(KERNEL_URL@ =~= "https://github.com/kata-containers/kata-containers/releases/download/"@
        + KERNEL_VERSION@ + "/kata-static-"@ + KERNEL_VERSION@ + "-arm64.tar.xz"@);
}

/// `part` taken relative to `base`, as a Unix path join does: an absolute
/// `part` replaces `base`; otherwise a `/` goes between them unless `base` is
/// empty or already ends in one.
pub open spec fn joined_path(base: Seq<char>, part: Seq<char>) -> Seq<char> {
    if part.len() > 0 && part[0] == '/' {
        part
    } else if base.len() == 0 || base.last() == '/' {
        base + part
    } else {
        base + seq!['/'] + part
    }
}

/// Joins `part` onto `base`; see [`joined_path`].
pub fn join_path(base: &str, part: &str) -> (path: String)
    ensures
        path@ == joined_path(base@, part@),
{
    let base_len = base.unicode_len();
    if part.unicode_len() > 0 && part.get_char(0) == '/' {
        return String::from_str(part);
    }
    let mut path = String::from_str(base);
    if base_len > 0 && base.get_char(base_len - 1) != '/' {
        path.append("/");
        proof {
            reveal_strlit("/");
        }
    }
    path.append(part);
    path
}

/// Why a store cannot serve a boot, or its index cannot be read.
#[derive(Debug, PartialEq, Eq)]
pub enum StoreError {
    /// Never provisioned.
    Missing(String),
    /// Lacks the kernel or init image a boot needs.
    Incomplete { root: String, missing: String },
    /// The index exists but can't be read.
    Unreadable { path: String, source: String },
}

/// The text a store error reads as.
pub open spec fn store_error_text(error: StoreError) -> Seq<char> {
    match error {
        StoreError::Missing(root) => "no image store at "@ + root@,
        StoreError::Incomplete { root, missing } => "the image store at "@ + root@ + " has no "@ + missing@,
        StoreError::Unreadable { path, source } => "cannot read "@ + path@ + ": "@ + source@,
    }
}

impl StoreError {
    /// The error as a sentence; see [`store_error_text`].
    pub fn to_string(&self) -> (text: String)
        ensures
            text@ == store_error_text(*self),
    {
        match self {
            StoreError::Missing(root) => {
                let mut text = String::from_str("no image store at ");
                text.append(root.as_str());
                text
            },
            StoreError::Incomplete { root, missing } => {
                let mut text = String::from_str("the image store at ");
                text.append(root.as_str());
                text.append(" has no ");
                text.append(missing.as_str());
                text
            },
            StoreError::Unreadable { path, source } => {
                let mut text = String::from_str("cannot read ");
                text.append(path.as_str());
                text.append(": ");
                text.append(source.as_str());
                text
            },
        }
    }
}

/// The image index as this process found it on disk.
#[derive(Clone, Debug, PartialEq, Eq)]
pub enum Index {
    /// No index file: the store has never stored an image.
    Absent,
    /// The file is there but could not be read; the reason.
    Unreadable(String),
    /// The file's text.
    Read(String),
}

/// What the store's directory holds, as far as a boot cares.
#[derive(Clone, Debug, PartialEq, Eq)]
pub struct Probe {
    pub root_is_dir: bool,
    pub kernel_is_file: bool,
    pub index: Index,
}

/// The keys of the JSON object that `text` holds, or what the parser said of
/// it; `serde_json`'s reading of an index into a `BTreeMap` of references.
pub uninterp spec fn index_references(text: Seq<char>) -> Result<Seq<Seq<char>>, Seq<char>>;

/// Parses an index with `serde_json::from_str` into a `BTreeMap<String,
/// serde_json::Value>` and hands back its keys, or the error's message.
/// Claimed: the result is [`index_references`] of the text, and the keys come
/// out ascending, each once, as `BTreeMap::into_keys` documents (the byte order
/// of UTF-8, which is the character order of `precedes`).
#[verifier::external_body]
fn parse_index(text: &str) -> (references: Result<Vec<String>, String>)
    ensures
        match references {
            Ok(keys) => index_references(text@) == Ok::<Seq<Seq<char>>, Seq<char>>(views(keys@))
                && ascending_keys(views(keys@)),
            Err(message) => index_references(text@) == Err::<Seq<Seq<char>>, Seq<char>>(message@),
        },
{
    match serde_json::from_str::<std::collections::BTreeMap<String, serde_json::Value>>(text) {
        Ok(references) => Ok(references.into_keys().collect()),
        Err(error) => Err(error.to_string()),
    }
}

/// Whether an index, as found, names `reference`. An unreadable index names none.
pub open spec fn index_holds(index: Index, reference: Seq<char>) -> bool {
    match index {
        Index::Read(text) => index_references(text@) matches Ok(keys) && keys.contains(reference),
        _ => false,
    }
}

/// What listing the images of the store at `root` gives, from its index as
/// found: none for no index; the parsed references, sorted, for a readable
/// one; and for an unreadable one an error naming the index and why.
pub open spec fn lists_images(root: Seq<char>, index: Index, images: Result<Vec<String>, StoreError>) -> bool {
    &&& match index {
        Index::Absent => images matches Ok(found) && found@.len() == 0,
        Index::Unreadable(reason) => images matches Err(StoreError::Unreadable { path, source })
            && path@ == joined_path(root, INDEX@) && source@ == reason@,
        Index::Read(text) => match index_references(text@) {
            Ok(keys) => images matches Ok(found) && views(found@) == keys,
            Err(message) => images matches Err(StoreError::Unreadable { path, source })
                && path@ == joined_path(root, INDEX@) && source@ == message,
        },
    }
    &&& images matches Ok(found) ==> ascending_keys(views(found@))
}

/// An image store on disk, in Containerization's layout.
#[derive(Clone, Debug, PartialEq, Eq)]
pub struct Store {
    root: String,
}

impl Store {
    /// The store's root directory.
    pub closed spec fn spec_root(self) -> Seq<char> {
        self.root@
    }

    /// Names a store without touching it; the first build provisions it.
    pub fn at(root: &str) -> (store: Store)
        ensures
            store.spec_root() == root@,
    {
        Store { root: String::from_str(root) }
    }

    pub fn root(&self) -> (root: &str)
        ensures
            root@ == self.spec_root(),
    {
        self.root.as_str()
    }

    /// The kernel a boot hands the VM.
    pub fn kernel(&self) -> (path: String)
        ensures
            path@ == joined_path(self.spec_root(), KERNEL@),
    {
        join_path(self.root.as_str(), KERNEL)
    }

    /// The image index.
    pub fn index_file(&self) -> (path: String)
        ensures
            path@ == joined_path(self.spec_root(), INDEX@),
    {
        join_path(self.root.as_str(), INDEX)
    }

    /// A container's rootfs, kernel copy, and boot log.
    pub fn container_dir(&self, name: &str) -> (path: String)
        ensures
            path@ == joined_path(joined_path(self.spec_root(), CONTAINERS@), name@),
    {
        let containers = join_path(self.root.as_str(), CONTAINERS);
        join_path(containers.as_str(), name)
    }

    /// Every image the store holds, as `name:tag`, sorted. No index means none,
    /// not an error: that's a first run.
    pub fn images(&self, index: &Index) -> (images: Result<Vec<String>, StoreError>)
        ensures
            lists_images(self.spec_root(), *index, images),
    {
        match index {
            Index::Absent => {
                let found: Vec<String> = Vec::new();
                assert(views(found@) =~= Seq::<Seq<char>>::empty());
                Ok(found)
            },
            Index::Unreadable(reason) => Err(
                StoreError::Unreadable { path: self.index_file(), source: reason.clone() },
            ),
            Index::Read(text) => self.index_outcome(parse_index(text.as_str())),
        }
    }

    /// What a parse of the index means: its references, or an error naming
    /// the index and saying what the parser said.
    pub fn index_outcome(&self, parsed: Result<Vec<String>, String>) -> (images: Result<Vec<String>, StoreError>)
        ensures
            match parsed {
                Ok(found) => images == Ok::<Vec<String>, StoreError>(found),
                Err(message) => images matches Err(StoreError::Unreadable { path, source })
                    && path@ == joined_path(self.spec_root(), INDEX@) && source@ == message@,
            },
    {
        match parsed {
            Ok(found) => Ok(found),
            Err(message) => Err(StoreError::Unreadable { path: self.index_file(), source: message }),
        }
    }

    /// Whether the index names an image. An unreadable index names none.
    pub fn holds(&self, reference: &str, index: &Index) -> (held: bool)
        ensures
            held == index_holds(*index, reference@),
    {
        let images = self.images(index);
        match images {
            Ok(found) => {
                let ghost keys = views(found@);
                proof {
                    if let Index::Read(text) = index {
                        if let Ok(all) = index_references(text@) {
                            assert(all == keys);
                        }
                    }
                    assert(index_holds(*index, reference@) == keys.contains(reference@));
                }
                let wanted = String::from_str(reference);
                let mut i: usize = 0;
                while i < found.len()
                    invariant
                        i <= found.len(),
                        keys == views(found@),
                        wanted@ == reference@,
                        index_holds(*index, reference@) == keys.contains(reference@),
                        forall|k: int| 0 <= k < i ==> keys[k] != reference@,
                    decreases found.len() - i,
                {
                    if found[i] == wanted {
                        assert(keys[i as int] == found@[i as int]@);
                        return true;
                    }
                    i += 1;
                }
                false
            },
            Err(_) => false,
        }
    }

    /// Whether this store holds what a boot needs, naming the first thing
    /// missing: the store itself, then its kernel, then the init image.
    pub fn ready(&self, probe: &Probe) -> (ready: Result<(), StoreError>)
        ensures
            !probe.root_is_dir ==> (ready matches Err(StoreError::Missing(root)) && root@ == self.spec_root()),
            probe.root_is_dir && !probe.kernel_is_file ==> (ready matches Err(StoreError::Incomplete { root, missing })
                && root@ == self.spec_root() && missing@ == "kernel at "@ + KERNEL@),
            probe.root_is_dir && probe.kernel_is_file && !index_holds(probe.index, INITFS_REFERENCE@)
                ==> (ready matches Err(StoreError::Incomplete { root, missing })
                && root@ == self.spec_root() && missing@ == INITFS_REFERENCE@ + " in "@ + INDEX@),
            ready is Ok <==> probe.root_is_dir && probe.kernel_is_file && index_holds(probe.index, INITFS_REFERENCE@),
    {
        if !probe.root_is_dir {
            return Err(StoreError::Missing(self.root.clone()));
        }
        if !probe.kernel_is_file {
            let mut missing = String::from_str("kernel at ");
            missing.append(KERNEL);
            return Err(StoreError::Incomplete { root: self.root.clone(), missing });
        }
        if !self.holds(INITFS_REFERENCE, &probe.index) {
            let mut missing = String::from_str(INITFS_REFERENCE);
            missing.append(" in ");
            missing.append(INDEX);
            return Err(StoreError::Incomplete { root: self.root.clone(), missing });
        }
        Ok(())
    }
}

/// A container named by a relative name has its directory inside the store:
/// under the store's root, in its containers directory.
pub proof fn lemma_container_dir_in_store(root: Seq<char>, name: Seq<char>)
    requires
        name.len() == 0 || name[0] != '/',
    ensures
        joined_path(joined_path(root, CONTAINERS@), name) == joined_path(root, CONTAINERS@) + seq!['/'] + name,
        joined_path(joined_path(root, CONTAINERS@), name).take(root.len() as int) == root,
{
    reveal_strlit("containers");
    let containers = joined_path(root, CONTAINERS@);
    assert(containers.len() > 0 && containers.last() == 's');
    assert(joined_path(containers, name) =~= containers + seq!['/'] + name);
    assert(containers.take(root.len() as int) =~= root);
    assert((containers + seq!['/'] + name).take(root.len() as int) =~= root);
}

/// An index names a reference exactly when listing the store's images gives
/// a list that holds it.
pub proof fn lemma_holds_iff_listed(
    root: Seq<char>,
    index: Index,
    images: Result<Vec<String>, StoreError>,
    reference: Seq<char>,
)
    requires
        lists_images(root, index, images),
    ensures
        index_holds(index, reference) <==> (images matches Ok(found) && views(found@).contains(reference)),
{
}

} // verus!
