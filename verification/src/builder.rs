//! Building images.
//!
//! The bridge pulls the base, unpacks it to a writable ext4 block, boots it,
//! runs each step, and stores the result as a single-layer image, all
//! in-process. This module writes what the bridge is handed for that, as JSON,
//! and reads what it answers.
//!
//! The rootfs is snapshotted after each step under that step's `cache_key`; a
//! rebuild resumes from the deepest match.

use vstd::prelude::*;
use vstd::string::StringExecFns;
use crate::bridge::{checked, reply_outcome, Reply};
use crate::error::Error;
use crate::json::{
    array, array_text, boolean, boolean_text, json_quoted, member, member_text, object, object_text,
    optional_string, optional_string_text, quote, signed_text, string_array, string_array_text,
    unsigned_text,
};
use crate::model::{BuildMount, BuildPlan, BuildStep, CachePolicy};
use crate::store::{joined_path, Store, INITFS_REFERENCE, KERNEL, KERNEL_IN_ARCHIVE, KERNEL_URL};
use crate::text::{
    contains_text, decimal_digits, integer, joined, lemma_contains_transitive, lemma_joined_concat,
    lemma_joined_contains, lemma_joined_front, lemma_numeral_decimal_digits, lemma_numeral_value,
    numeral, numeral_value, views,
};

verus! {

/// A `u32` read as the `i32` with the same bits, as `as i32` reads it.
pub open spec fn as_i32(value: u32) -> int {
    if value <= 0x7fff_ffff {
        value as int
    } else {
        value - 0x1_0000_0000
    }
}

/// The `i32` with the same bits as `value`.
pub fn wrap_i32(value: u32) -> (wrapped: i32)
    ensures
        wrapped == as_i32(value),
{
    if value <= 0x7fff_ffff {
        value as i32
    } else {
        (value as i64 - 0x1_0000_0000) as i32
    }
}

/// A host directory the builder shares into the guest.
pub open spec fn build_mount_wire(mount: BuildMount) -> Seq<char> {
    object(seq![
        ("source"@, json_quoted(mount.source@)),
        ("destination"@, json_quoted(mount.destination@)),
        ("readonly"@, boolean(mount.readonly)),
    ])
}

/// A step. Its cache key goes unsalted; the builder mixes in the base's digest
/// and the rootfs ceiling.
pub open spec fn step_wire(step: BuildStep) -> Seq<char> {
    object(seq![
        ("name"@, json_quoted(step.name@)),
        ("script"@, json_quoted(step.script@)),
        ("user"@, optional_string(step.user)),
        ("cacheKey"@, json_quoted(step.cache_key@)),
    ])
}

/// The cache policy, its age limit in whole seconds.
pub open spec fn cache_wire(cache: CachePolicy) -> Seq<char> {
    object(seq![
        ("restore"@, boolean(cache.restore)),
        ("keep"@, numeral(cache.keep as nat, 10)),
        ("keepForSeconds"@, numeral(cache.keep_for_seconds as nat, 10)),
    ])
}

/// Labels as an object of strings, in the order the labels keep.
pub open spec fn labels_wire(pairs: Seq<(Seq<char>, Seq<char>)>) -> Seq<char> {
    object(pairs.map_values(|p: (Seq<char>, Seq<char>)| (p.0, json_quoted(p.1))))
}

/// What the bridge's build is handed: the plan, plus the store and the boot
/// artefacts a build needs beyond it.
pub open spec fn plan_wire(plan: BuildPlan, store: Store) -> Seq<char> {
    object(plan_members(plan, store))
}

/// The plan wire's members, in order: each key and its value's text.
pub open spec fn plan_members(plan: BuildPlan, store: Store) -> Seq<(Seq<char>, Seq<char>)> {
    seq![
        ("name"@, json_quoted(plan.name@)),
        ("storeRoot"@, json_quoted(store.spec_root())),
        ("kernelPath"@, json_quoted(joined_path(store.spec_root(), KERNEL@))),
        ("initfsReference"@, json_quoted(INITFS_REFERENCE@)),
        ("base"@, json_quoted(plan.base@)),
        ("tag"@, json_quoted(plan.tag@)),
        ("cpus"@, integer(as_i32(plan.resources.cpus))),
        ("memoryInBytes"@, numeral(plan.resources.memory_in_bytes as nat, 10)),
        ("rootfsSizeInBytes"@, numeral(plan.rootfs_capacity_in_bytes as nat, 10)),
        ("mounts"@, array(plan.mounts@.map_values(|m: BuildMount| build_mount_wire(m)))),
        ("steps"@, array(plan.steps@.map_values(|s: BuildStep| step_wire(s)))),
        ("environment"@, string_array(views(plan.environment@))),
        ("labels"@, labels_wire(plan.labels.pairs())),
        ("user"@, optional_string(plan.user)),
        ("workingDirectory"@, optional_string(plan.workdir)),
        ("ipv4Address"@, json_quoted(plan.network.ipv4_address@)),
        ("ipv4Gateway"@, json_quoted(plan.network.ipv4_gateway@)),
        ("baseKey"@, json_quoted(plan.base_key@)),
        ("cache"@, cache_wire(plan.cache)),
        ("shell"@, string_array(views(plan.shell.0@))),
        ("keepalive"@, string_array(views(plan.keepalive@))),
        ("reclaim"@, boolean(plan.reclaim)),
    ]
}

/// What the bridge's provision is handed: the store, and where the kernel
/// comes from and goes.
pub open spec fn provision_wire(store: Store) -> Seq<char> {
    object(seq![
        ("storeRoot"@, json_quoted(store.spec_root())),
        ("kernelPath"@, json_quoted(joined_path(store.spec_root(), KERNEL@))),
        ("kernelUrl"@, json_quoted(KERNEL_URL@)),
        ("kernelInArchive"@, json_quoted(KERNEL_IN_ARCHIVE@)),
        ("initfsReference"@, json_quoted(INITFS_REFERENCE@)),
    ])
}

fn build_mount_text(mount: &BuildMount) -> (text: String)
    ensures
        text@ == build_mount_wire(*mount),
{
    let ghost pairs = seq![
        ("source"@, json_quoted(mount.source@)),
        ("destination"@, json_quoted(mount.destination@)),
        ("readonly"@, boolean(mount.readonly)),
    ];
    let mut members: Vec<String> = Vec::new();
    let value = quote(mount.source.as_str());
    members.push(member_text("source", value.as_str()));
    let value = quote(mount.destination.as_str());
    members.push(member_text("destination", value.as_str()));
    let value = boolean_text(mount.readonly);
    members.push(member_text("readonly", value.as_str()));
    assert(views(members@) =~= pairs.map_values(|m: (Seq<char>, Seq<char>)| member(m.0, m.1)));
    object_text(&members)
}

fn step_text(step: &BuildStep) -> (text: String)
    ensures
        text@ == step_wire(*step),
{
    let ghost pairs = seq![
        ("name"@, json_quoted(step.name@)),
        ("script"@, json_quoted(step.script@)),
        ("user"@, optional_string(step.user)),
        ("cacheKey"@, json_quoted(step.cache_key@)),
    ];
    let mut members: Vec<String> = Vec::new();
    let value = quote(step.name.as_str());
    members.push(member_text("name", value.as_str()));
    let value = quote(step.script.as_str());
    members.push(member_text("script", value.as_str()));
    let value = optional_string_text(&step.user);
    members.push(member_text("user", value.as_str()));
    let value = quote(step.cache_key.as_str());
    members.push(member_text("cacheKey", value.as_str()));
    assert(views(members@) =~= pairs.map_values(|m: (Seq<char>, Seq<char>)| member(m.0, m.1)));
    object_text(&members)
}

fn cache_text(cache: &CachePolicy) -> (text: String)
    ensures
        text@ == cache_wire(*cache),
{
    let ghost pairs = seq![
        ("restore"@, boolean(cache.restore)),
        ("keep"@, numeral(cache.keep as nat, 10)),
        ("keepForSeconds"@, numeral(cache.keep_for_seconds as nat, 10)),
    ];
    let mut members: Vec<String> = Vec::new();
    let value = boolean_text(cache.restore);
    members.push(member_text("restore", value.as_str()));
    let value = unsigned_text(cache.keep as u64);
    members.push(member_text("keep", value.as_str()));
    let value = unsigned_text(cache.keep_for_seconds);
    members.push(member_text("keepForSeconds", value.as_str()));
    assert(views(members@) =~= pairs.map_values(|m: (Seq<char>, Seq<char>)| member(m.0, m.1)));
    object_text(&members)
}

fn build_mounts_text(mounts: &Vec<BuildMount>) -> (text: String)
    ensures
        text@ == array(mounts@.map_values(|m: BuildMount| build_mount_wire(m))),
{
    let mut elements: Vec<String> = Vec::new();
    let mut i: usize = 0;
    while i < mounts.len()
        invariant
            i <= mounts.len(),
            elements@.len() == i,
            forall|k: int| 0 <= k < i ==> (#[trigger] elements@[k])@ == build_mount_wire(mounts@[k]),
        decreases mounts.len() - i,
    {
        elements.push(build_mount_text(&mounts[i]));
        i += 1;
    }
    assert(views(elements@) =~= mounts@.map_values(|m: BuildMount| build_mount_wire(m)));
    array_text(&elements)
}

fn steps_text(steps: &Vec<BuildStep>) -> (text: String)
    ensures
        text@ == array(steps@.map_values(|s: BuildStep| step_wire(s))),
{
    let mut elements: Vec<String> = Vec::new();
    let mut i: usize = 0;
    while i < steps.len()
        invariant
            i <= steps.len(),
            elements@.len() == i,
            forall|k: int| 0 <= k < i ==> (#[trigger] elements@[k])@ == step_wire(steps@[k]),
        decreases steps.len() - i,
    {
        elements.push(step_text(&steps[i]));
        i += 1;
    }
    assert(views(elements@) =~= steps@.map_values(|s: BuildStep| step_wire(s)));
    array_text(&elements)
}

fn labels_text(entries: &Vec<(String, String)>) -> (text: String)
    ensures
        text@ == labels_wire(entries@.map_values(|e: (String, String)| (e.0@, e.1@))),
{
    let ghost pairs = entries@.map_values(|e: (String, String)| (e.0@, e.1@));
    let ghost quoted = pairs.map_values(|p: (Seq<char>, Seq<char>)| (p.0, json_quoted(p.1)));
    let mut members: Vec<String> = Vec::new();
    let mut i: usize = 0;
    while i < entries.len()
        invariant
            i <= entries.len(),
            pairs == entries@.map_values(|e: (String, String)| (e.0@, e.1@)),
            quoted == pairs.map_values(|p: (Seq<char>, Seq<char>)| (p.0, json_quoted(p.1))),
            members@.len() == i,
            forall|k: int| 0 <= k < i ==> (#[trigger] members@[k])@ == member(quoted[k].0, quoted[k].1),
        decreases entries.len() - i,
    {
        let entry = &entries[i];
        let value = quote(entry.1.as_str());
        members.push(member_text(entry.0.as_str(), value.as_str()));
        i += 1;
    }
    assert(views(members@) =~= quoted.map_values(|m: (Seq<char>, Seq<char>)| member(m.0, m.1)));
    object_text(&members)
}

/// Writes what the bridge's build is handed; see [`plan_wire`].
pub fn plan_wire_text(plan: &BuildPlan, store: &Store) -> (text: String)
    ensures
        text@ == plan_wire(*plan, *store),
{
    let ghost pairs = plan_members(*plan, *store);
    let mut members: Vec<String> = Vec::new();
    let value = quote(plan.name.as_str());
    members.push(member_text("name", value.as_str()));
    let value = quote(store.root());
    members.push(member_text("storeRoot", value.as_str()));
    let kernel = store.kernel();
    let value = quote(kernel.as_str());
    members.push(member_text("kernelPath", value.as_str()));
    let value = quote(INITFS_REFERENCE);
    members.push(member_text("initfsReference", value.as_str()));
    let value = quote(plan.base.as_str());
    members.push(member_text("base", value.as_str()));
    let value = quote(plan.tag.as_str());
    members.push(member_text("tag", value.as_str()));
    let value = signed_text(wrap_i32(plan.resources.cpus));
    members.push(member_text("cpus", value.as_str()));
    let value = unsigned_text(plan.resources.memory_in_bytes);
    members.push(member_text("memoryInBytes", value.as_str()));
    let value = unsigned_text(plan.rootfs_capacity_in_bytes);
    members.push(member_text("rootfsSizeInBytes", value.as_str()));
    let value = build_mounts_text(&plan.mounts);
    members.push(member_text("mounts", value.as_str()));
    let value = steps_text(&plan.steps);
    members.push(member_text("steps", value.as_str()));
    let value = string_array_text(&plan.environment);
    members.push(member_text("environment", value.as_str()));
    let value = labels_text(plan.labels.entries());
    members.push(member_text("labels", value.as_str()));
    let value = optional_string_text(&plan.user);
    members.push(member_text("user", value.as_str()));
    let value = optional_string_text(&plan.workdir);
    members.push(member_text("workingDirectory", value.as_str()));
    let value = quote(plan.network.ipv4_address.as_str());
    members.push(member_text("ipv4Address", value.as_str()));
    let value = quote(plan.network.ipv4_gateway.as_str());
    members.push(member_text("ipv4Gateway", value.as_str()));
    let value = quote(plan.base_key.as_str());
    members.push(member_text("baseKey", value.as_str()));
    let value = cache_text(&plan.cache);
    members.push(member_text("cache", value.as_str()));
    let value = string_array_text(&plan.shell.0);
    members.push(member_text("shell", value.as_str()));
    let value = string_array_text(&plan.keepalive);
    members.push(member_text("keepalive", value.as_str()));
    let value = boolean_text(plan.reclaim);
    members.push(member_text("reclaim", value.as_str()));
    assert(views(members@) =~= pairs.map_values(|m: (Seq<char>, Seq<char>)| member(m.0, m.1)));
    object_text(&members)
}

/// Writes what the bridge's provision is handed; see [`provision_wire`].
pub fn provision_wire_text(store: &Store) -> (text: String)
    ensures
        text@ == provision_wire(*store),
{
    let ghost pairs = seq![
        ("storeRoot"@, json_quoted(store.spec_root())),
        ("kernelPath"@, json_quoted(joined_path(store.spec_root(), KERNEL@))),
        ("kernelUrl"@, json_quoted(KERNEL_URL@)),
        ("kernelInArchive"@, json_quoted(KERNEL_IN_ARCHIVE@)),
        ("initfsReference"@, json_quoted(INITFS_REFERENCE@)),
    ];
    let mut members: Vec<String> = Vec::new();
    let value = quote(store.root());
    members.push(member_text("storeRoot", value.as_str()));
    let kernel = store.kernel();
    let value = quote(kernel.as_str());
    members.push(member_text("kernelPath", value.as_str()));
    let value = quote(KERNEL_URL);
    members.push(member_text("kernelUrl", value.as_str()));
    let value = quote(KERNEL_IN_ARCHIVE);
    members.push(member_text("kernelInArchive", value.as_str()));
    let value = quote(INITFS_REFERENCE);
    members.push(member_text("initfsReference", value.as_str()));
    assert(views(members@) =~= pairs.map_values(|m: (Seq<char>, Seq<char>)| member(m.0, m.1)));
    object_text(&members)
}

/// Builds images into a store, through the bridge.
#[derive(Clone, Debug, PartialEq, Eq)]
pub struct Builder {
    store: Store,
}

impl Builder {
    /// The store the builder builds into.
    pub closed spec fn spec_store(self) -> Store {
        self.store
    }

    pub fn new(store: Store) -> (builder: Builder)
        ensures
            builder.spec_store() == store,
    {
        Builder { store }
    }

    pub fn store(&self) -> (store: &Store)
        ensures
            *store == self.spec_store(),
    {
        &self.store
    }

    /// What the bridge's build is handed for `plan`.
    pub fn build_wire(&self, plan: &BuildPlan) -> (wire: String)
        ensures
            wire@ == plan_wire(*plan, self.spec_store()),
            exists|memory: Seq<char>, ceiling: Seq<char>|
                #![trigger sizes_shown(memory, ceiling)]
                decimal_digits(memory) && numeral_value(memory, 10) == plan.resources.memory_in_bytes
                && decimal_digits(ceiling) && numeral_value(ceiling, 10) == plan.rootfs_capacity_in_bytes
                && contains_text(wire@, sizes_shown(memory, ceiling)),
            forall|i: int| 0 <= i < plan.mounts@.len() ==> contains_text(wire@, mount_shown(#[trigger] plan.mounts@[i])),
            exists|keep: Seq<char>|
                #![trigger cache_keep_shown(plan.cache.restore, keep)]
                decimal_digits(keep) && numeral_value(keep, 10) == plan.cache.keep
                && contains_text(wire@, cache_keep_shown(plan.cache.restore, keep)),
    {
        let wire = plan_wire_text(plan, &self.store);
        proof {
            lemma_build_wire_sizes(*plan, self.store);
            lemma_build_wire_keep(*plan, self.store);
            assert forall|i: int| 0 <= i < plan.mounts@.len() implies contains_text(wire@, mount_shown(#[trigger] plan.mounts@[i])) by {
                lemma_build_wire_mounts(*plan, self.store, i);
            }
        }
        wire
    }

    /// The build's outcome, from the bridge's answer to [`Builder::build_wire`]:
    /// a failure is named `build {tag}` and says what the bridge said.
    pub fn build(&self, plan: &BuildPlan, reply: &Reply) -> (built: Result<(), Error>)
        ensures
            match reply_outcome(*reply) {
                Ok(_) => built is Ok,
                Err(said) => built matches Err(Error::Failed { action, message })
                    && action@ == "build "@ + plan.tag@ && message@ == said,
            },
    {
        match checked(reply) {
            Ok(_) => Ok(()),
            Err(message) => {
                let mut action = String::from_str("build ");
                action.append(plan.tag.as_str());
                Err(Error::failed(action.as_str(), message.as_str()))
            },
        }
    }

    /// What the bridge's provision is handed: fetch the kernel and the init
    /// image into the store if either is missing.
    pub fn provision_wire(&self) -> (wire: String)
        ensures
            wire@ == provision_wire(self.spec_store()),
    {
        provision_wire_text(&self.store)
    }

    /// The provision's outcome, from the bridge's answer to
    /// [`Builder::provision_wire`]: a failure is named `provision the image store`.
    pub fn provision(&self, reply: &Reply) -> (provisioned: Result<(), Error>)
        ensures
            match reply_outcome(*reply) {
                Ok(_) => provisioned is Ok,
                Err(said) => provisioned matches Err(Error::Failed { action, message })
                    && action@ == "provision the image store"@ && message@ == said,
            },
    {
        match checked(reply) {
            Ok(_) => Ok(()),
            Err(message) => Err(Error::failed("provision the image store", message.as_str())),
        }
    }
}

/// The builder's memory and rootfs ceiling as the build wire shows them: the
/// two members, in order, with these values.
pub open spec fn sizes_shown(memory: Seq<char>, ceiling: Seq<char>) -> Seq<char> {
    json_quoted("memoryInBytes"@) + ":"@ + memory + ","@ + json_quoted("rootfsSizeInBytes"@) + ":"@ + ceiling + ","@
}

/// A build mount as the build wire shows it: its source, its destination, and
/// the literal `true` when it is read-only, `false` when it is writable.
pub open spec fn mount_shown(mount: BuildMount) -> Seq<char> {
    json_quoted("source"@) + ":"@ + json_quoted(mount.source@) + ","@
        + json_quoted("destination"@) + ":"@ + json_quoted(mount.destination@) + ","@
        + json_quoted("readonly"@) + ":"@ + (if mount.readonly { "true"@ } else { "false"@ }) + "}"@
}

/// The start of the cache policy as the build wire shows it: whether to
/// restore, then how many snapshots to keep, as `keep`.
pub open spec fn cache_keep_shown(restore: bool, keep: Seq<char>) -> Seq<char> {
    json_quoted("cache"@) + ":"@ + "{"@ + json_quoted("restore"@) + ":"@
        + (if restore { "true"@ } else { "false"@ }) + ","@ + json_quoted("keep"@) + ":"@ + keep + ","@
}

proof fn lemma_joined_three(a: Seq<char>, b: Seq<char>, c: Seq<char>, sep: Seq<char>)
    ensures
        joined(seq![a, b, c], sep) == a + sep + b + sep + c,
{
    let list = seq![a, b, c];
    assert(list.drop_last() =~= seq![a, b]);
    assert(list.drop_last().drop_last() =~= seq![a]);
    assert(joined(seq![a], sep) == a);
    assert(joined(list.drop_last(), sep) == a + sep + b);
    assert(list.last() == c);
    assert(joined(list, sep) == joined(list.drop_last(), sep) + sep + c);
    assert(joined(list, sep) =~= a + sep + b + sep + c);
}

/// The plan wire is braces around its members' join.
proof fn lemma_plan_wire_holds_members(plan: BuildPlan, store: Store)
    ensures
        contains_text(plan_wire(plan, store), joined(plan_members(plan, store).map_values(|m: (Seq<char>, Seq<char>)| member(m.0, m.1)), ","@)),
{
    let inner = joined(plan_members(plan, store).map_values(|m: (Seq<char>, Seq<char>)| member(m.0, m.1)), ","@);
    assert(plan_wire(plan, store) =~= "{"@ + inner + "}"@);
}

/// The build wire carries the builder's memory and its rootfs ceiling, each
/// under its own key and in that order, as decimal numbers that read back as
/// the plan's memory and the plan's ceiling.
#[verifier::rlimit(40)]
pub proof fn lemma_build_wire_sizes(plan: BuildPlan, store: Store)
    ensures
        exists|memory: Seq<char>, ceiling: Seq<char>|
            #![trigger sizes_shown(memory, ceiling)]
            decimal_digits(memory) && numeral_value(memory, 10) == plan.resources.memory_in_bytes
            && decimal_digits(ceiling) && numeral_value(ceiling, 10) == plan.rootfs_capacity_in_bytes
            && contains_text(plan_wire(plan, store), sizes_shown(memory, ceiling)),
{
    let members = plan_members(plan, store).map_values(|m: (Seq<char>, Seq<char>)| member(m.0, m.1));
    let memory = numeral(plan.resources.memory_in_bytes as nat, 10);
    let ceiling = numeral(plan.rootfs_capacity_in_bytes as nat, 10);
    assert(members.len() == 22);
    assert(members[7] == json_quoted("memoryInBytes"@) + ":"@ + memory);
    assert(members[8] == json_quoted("rootfsSizeInBytes"@) + ":"@ + ceiling);
    lemma_joined_concat(members.take(7), members.skip(7), ","@);
    assert(members.take(7) + members.skip(7) =~= members);
    lemma_joined_front(members.skip(7), ","@);
    assert(members.skip(7).drop_first() =~= members.skip(8));
    lemma_joined_front(members.skip(8), ","@);
    assert(members.skip(8).drop_first() =~= members.skip(9));
    let before = "{"@ + joined(members.take(7), ","@) + ","@;
    let after = joined(members.skip(9), ","@) + "}"@;
    assert(plan_wire(plan, store) =~= before + sizes_shown(memory, ceiling) + after);
    lemma_numeral_decimal_digits(plan.resources.memory_in_bytes as nat);
    lemma_numeral_decimal_digits(plan.rootfs_capacity_in_bytes as nat);
    lemma_numeral_value(plan.resources.memory_in_bytes as nat, 10);
    lemma_numeral_value(plan.rootfs_capacity_in_bytes as nat, 10);
    assert(contains_text(plan_wire(plan, store), sizes_shown(memory, ceiling)));
}

/// Every build mount reaches the build wire with its own source and
/// destination, and with `readonly` true exactly when the mount is read-only.
#[verifier::rlimit(40)]
pub proof fn lemma_build_wire_mounts(plan: BuildPlan, store: Store, i: int)
    requires
        0 <= i < plan.mounts@.len(),
    ensures
        contains_text(plan_wire(plan, store), mount_shown(plan.mounts@[i])),
{
    let members = plan_members(plan, store).map_values(|m: (Seq<char>, Seq<char>)| member(m.0, m.1));
    let all = joined(members, ","@);
    let elements = plan.mounts@.map_values(|m: BuildMount| build_mount_wire(m));
    let mount = plan.mounts@[i];
    lemma_plan_wire_holds_members(plan, store);
    assert(members.len() == 22);
    lemma_joined_contains(members, 9, ","@);
    assert(members[9] == json_quoted("mounts"@) + ":"@ + array(elements));
    assert(members[9] =~= (json_quoted("mounts"@) + ":"@ + "["@) + joined(elements, ","@) + "]"@);
    assert(contains_text(members[9], joined(elements, ","@)));
    lemma_joined_contains(elements, i, ","@);
    assert(elements[i] == build_mount_wire(mount));
    let source = json_quoted("source"@) + ":"@ + json_quoted(mount.source@);
    let destination = json_quoted("destination"@) + ":"@ + json_quoted(mount.destination@);
    let flag = json_quoted("readonly"@) + ":"@ + boolean(mount.readonly);
    let fields = seq![
        ("source"@, json_quoted(mount.source@)),
        ("destination"@, json_quoted(mount.destination@)),
        ("readonly"@, boolean(mount.readonly)),
    ];
    assert(fields.map_values(|m: (Seq<char>, Seq<char>)| member(m.0, m.1)) =~= seq![source, destination, flag]);
    lemma_joined_three(source, destination, flag, ","@);
    assert(build_mount_wire(mount) =~= "{"@ + mount_shown(mount) + Seq::<char>::empty());
    assert(contains_text(elements[i], mount_shown(mount)));
    lemma_contains_transitive(plan_wire(plan, store), all, members[9]);
    lemma_contains_transitive(plan_wire(plan, store), members[9], joined(elements, ","@));
    lemma_contains_transitive(plan_wire(plan, store), joined(elements, ","@), elements[i]);
    lemma_contains_transitive(plan_wire(plan, store), elements[i], mount_shown(mount));
}

/// The build wire's cache policy says how many snapshots to keep as a decimal
/// number that reads back as the plan's `keep`, whatever it is.
#[verifier::rlimit(40)]
pub proof fn lemma_build_wire_keep(plan: BuildPlan, store: Store)
    ensures
        exists|keep: Seq<char>|
            #![trigger cache_keep_shown(plan.cache.restore, keep)]
            decimal_digits(keep) && numeral_value(keep, 10) == plan.cache.keep
            && contains_text(plan_wire(plan, store), cache_keep_shown(plan.cache.restore, keep)),
{
    let members = plan_members(plan, store).map_values(|m: (Seq<char>, Seq<char>)| member(m.0, m.1));
    let all = joined(members, ","@);
    let cache = plan.cache;
    let keep = numeral(cache.keep as nat, 10);
    lemma_plan_wire_holds_members(plan, store);
    assert(members.len() == 22);
    lemma_joined_contains(members, 18, ","@);
    assert(members[18] == json_quoted("cache"@) + ":"@ + cache_wire(cache));
    let restore = json_quoted("restore"@) + ":"@ + boolean(cache.restore);
    let kept = json_quoted("keep"@) + ":"@ + keep;
    let age = json_quoted("keepForSeconds"@) + ":"@ + numeral(cache.keep_for_seconds as nat, 10);
    let fields = seq![
        ("restore"@, boolean(cache.restore)),
        ("keep"@, keep),
        ("keepForSeconds"@, numeral(cache.keep_for_seconds as nat, 10)),
    ];
    assert(fields.map_values(|m: (Seq<char>, Seq<char>)| member(m.0, m.1)) =~= seq![restore, kept, age]);
    lemma_joined_three(restore, kept, age, ","@);
    assert(members[18] =~= Seq::<char>::empty() + cache_keep_shown(cache.restore, keep) + (age + "}"@));
    lemma_contains_transitive(plan_wire(plan, store), all, members[18]);
    lemma_contains_transitive(plan_wire(plan, store), members[18], cache_keep_shown(cache.restore, keep));
    lemma_numeral_decimal_digits(cache.keep as nat);
    lemma_numeral_value(cache.keep as nat, 10);
}

} // verus!
