//! Top-level coordination of the control plane: the installed-provider
//! registry, persisted model selections, the running-instance table with
//! its idle clock, and the install-operation progress table.
//!
//! Everything here is bookkeeping and decisions; spawning processes,
//! allocating ports, polling health and downloading are done by the
//! caller, which feeds their outcomes back in (the time, too, is passed in
//! as milliseconds on a monotonic clock).
use vstd::prelude::*;

use crate::assoc::{
    as_map, find_key, keys_unique, lemma_as_map_at, lemma_as_map_update, pairs, table, table_get,
    table_insert, table_remove,
};
use crate::catalog::{
    catalog_entry, catalog_has, entry_has_model, find_model, find_provider, list_providers,
    variant_name, CatalogEntry, CatalogEntryView, ProviderId, ProviderInfo, RuntimeVariant,
    spec_catalog,
};
use crate::config::{is_loopback_host, spec_is_loopback_host};
use crate::error::RuntimeError;
use crate::hardware::HardwareReport;
use crate::launch::{
    args_view, bind_host_of, env_view, spec_build, LaunchBuilder, LaunchBuilderView, LaunchView,
    StartOptions,
};
use crate::supervisor::{observed_status, spec_observed_status, ExitPoll, RuntimeStatus, SpawnSpec};
use crate::text::{concat, decimal, is_blank, owned, push_decimal, str_eq, trimmed};
use crate::types::{
    copy_streaming, streaming_view, DescriptorAuth, RuntimeConnectionDescriptor,
    StreamingCapability, StreamingCapabilityView, RUNTIME_DESCRIPTOR_SCHEMA_VERSION,
};
use crate::config::opt_view;
use crate::providers::cache::FileProbe;
use crate::providers::faster_whisper::{spec_weights_status, verify_cached_model};

verus! {

/// At most this many finished (`Complete`/`Failed`) install operations
/// are kept: once more have finished, the oldest finished ones are
/// evicted. In-flight ones are never evicted.
pub const MAX_FINISHED_INSTALL_OPERATIONS: usize = 8;

/// A fresh random (version 4) UUID in its hyphenated lower-case text form,
/// from `uuid::Uuid::new_v4` and its `Display`. Only the length of that
/// form (36 characters) is stated; the value is random.
#[verifier::external_body]
fn new_uuid() -> (r: String)
    ensures
        r@.len() == 36,
{
    uuid::Uuid::new_v4().to_string()
}

/// Status of an in-flight or finished download.
#[derive(Debug, Clone, Copy, PartialEq, Eq, Structural)]
pub enum InstallOperationStatus {
    Downloading,
    Complete,
    Failed,
}

/// A download the control plane is tracking: a provider variant
/// (`variant` set) or a model's weights (`model_id` set).
#[derive(Debug)]
pub struct InstallOperationState {
    pub operation_id: String,
    pub provider_id: String,
    pub variant: Option<String>,
    pub model_id: Option<String>,
    pub status: InstallOperationStatus,
    pub downloaded_bytes: u64,
    pub total_bytes: Option<u64>,
    pub error: Option<String>,
}

pub struct OperationView {
    pub operation_id: Seq<char>,
    pub provider_id: Seq<char>,
    pub variant: Option<Seq<char>>,
    pub model_id: Option<Seq<char>>,
    pub status: InstallOperationStatus,
    pub downloaded_bytes: u64,
    pub total_bytes: Option<u64>,
    pub error: Option<Seq<char>>,
}

impl View for InstallOperationState {
    type V = OperationView;

    open spec fn view(&self) -> OperationView {
        OperationView {
            operation_id: self.operation_id@,
            provider_id: self.provider_id@,
            variant: opt_view(self.variant),
            model_id: opt_view(self.model_id),
            status: self.status,
            downloaded_bytes: self.downloaded_bytes,
            total_bytes: self.total_bytes,
            error: opt_view(self.error),
        }
    }
}

fn copy_opt_string(s: &Option<String>) -> (r: Option<String>)
    ensures
        opt_view(r) == opt_view(*s),
{
    match s {
        Some(x) => Some(x.clone()),
        None => None,
    }
}

impl InstallOperationState {
    pub fn duplicate(&self) -> (r: InstallOperationState)
        ensures
            r@ == self@,
    {
        InstallOperationState {
            operation_id: self.operation_id.clone(),
            provider_id: self.provider_id.clone(),
            variant: copy_opt_string(&self.variant),
            model_id: copy_opt_string(&self.model_id),
            status: self.status,
            downloaded_bytes: self.downloaded_bytes,
            total_bytes: self.total_bytes,
            error: copy_opt_string(&self.error),
        }
    }
}

/// Result of a model pull: the weights were already on disk, or a
/// download is (now) in flight under an operation id.
#[derive(Debug)]
pub enum ModelPullOutcome {
    Cached,
    Downloading { operation_id: String },
}

/// Result of an install request: the variant was available locally and is
/// registered, or a download is (now) in flight under an operation id.
#[derive(Debug)]
pub enum InstallOutcome {
    Installed { provider_id: String, variant: String },
    Downloading { operation_id: String, variant: String },
}

/// A running managed instance: where it listens, the token it accepts,
/// its last observed status, when it was last used, and the streaming
/// block it advertised.
#[derive(Debug)]
pub struct RunningInstance {
    pub port: u16,
    pub auth_token: String,
    pub status: RuntimeStatus,
    pub last_activity_ms: u64,
    pub streaming: Option<StreamingCapability>,
}

pub struct InstanceView {
    pub port: u16,
    pub auth_token: Seq<char>,
    pub status: RuntimeStatus,
    pub last_activity_ms: u64,
    pub streaming: Option<StreamingCapabilityView>,
}

impl View for RunningInstance {
    type V = InstanceView;

    open spec fn view(&self) -> InstanceView {
        InstanceView {
            port: self.port,
            auth_token: self.auth_token@,
            status: self.status,
            last_activity_ms: self.last_activity_ms,
            streaming: streaming_view(self.streaming),
        }
    }
}

/// A provider's registered launch builder and the variant it was resolved
/// for.
#[derive(Debug)]
pub struct InstalledProvider {
    pub variant: RuntimeVariant,
    pub launch: LaunchBuilder,
}

pub struct InstalledView {
    pub variant: RuntimeVariant,
    pub launch: LaunchBuilderView,
}

impl View for InstalledProvider {
    type V = InstalledView;

    open spec fn view(&self) -> InstalledView {
        InstalledView { variant: self.variant, launch: self.launch@ }
    }
}

/// The value bound to `k`, if any.
pub open spec fn opt_get<V>(m: Map<Seq<char>, V>, k: Seq<char>) -> Option<V> {
    if m.contains_key(k) {
        Some(m[k])
    } else {
        None
    }
}

/// The status of `id`'s recorded instance; `Stopped` when there is none.
pub open spec fn status_of(instances: Map<Seq<char>, InstanceView>, id: Seq<char>) -> RuntimeStatus {
    if instances.contains_key(id) {
        instances[id].status
    } else {
        RuntimeStatus::Stopped
    }
}

/// `http://127.0.0.1:<port>`: a managed runtime is always reached over
/// loopback by the clients a descriptor is for.
pub open spec fn loopback_base_url(port: u16) -> Seq<char> {
    "http://127.0.0.1:"@ + decimal(port as nat)
}

/// `d` is the connection descriptor of a runtime of catalog entry `entry`
/// listening on `port`, accepting `token`, advertising `streaming`.
pub open spec fn descriptor_is(
    d: RuntimeConnectionDescriptor,
    entry: CatalogEntryView,
    port: u16,
    token: Seq<char>,
    streaming: Option<StreamingCapabilityView>,
) -> bool {
    &&& d.schema_version == RUNTIME_DESCRIPTOR_SCHEMA_VERSION
    &&& d.provider@ == entry.id
    &&& d.protocol@ == entry.protocol
    &&& d.transport@ == entry.transport
    &&& d.base_url@ == loopback_base_url(port)
    &&& streaming_view(d.streaming) == streaming
    &&& d.auth matches Some(a) && a.auth_type@ == "token"@ && a.value@ == token
}

/// The connection descriptor of a running instance.
pub fn descriptor_for(
    entry: &CatalogEntry,
    port: u16,
    auth_token: &str,
    streaming: &Option<StreamingCapability>,
) -> (r: RuntimeConnectionDescriptor)
    ensures
        descriptor_is(r, entry@, port, auth_token@, streaming_view(*streaming)),
{
    let mut base_url = owned("http://127.0.0.1:");
    push_decimal(&mut base_url, port as u64);
    RuntimeConnectionDescriptor {
        schema_version: RUNTIME_DESCRIPTOR_SCHEMA_VERSION,
        provider: entry.id.clone(),
        protocol: entry.protocol.clone(),
        transport: entry.transport.clone(),
        base_url,
        streaming: copy_streaming(streaming),
        auth: Some(DescriptorAuth { auth_type: owned("token"), value: owned(auth_token) }),
    }
}

/// The same instance, used at `now`.
pub open spec fn touched(v: InstanceView, now_ms: u64) -> InstanceView {
    InstanceView { last_activity_ms: now_ms, ..v }
}

/// The same instance, in status `s`.
pub open spec fn with_status(v: InstanceView, s: RuntimeStatus) -> InstanceView {
    InstanceView { status: s, ..v }
}

/// Why a start with these options is refused, if it is: a non-loopback
/// host other than the wildcard, the wildcard without a non-blank auth
/// token, or `cuda` asked of a registered build that is not the GPU
/// variant.
pub open spec fn start_rejection(
    id: Seq<char>,
    options: StartOptions,
    installed: Option<InstalledView>,
) -> Option<Seq<char>> {
    let host = bind_host_of(options);
    if !spec_is_loopback_host(host) && host != "0.0.0.0"@ {
        Some(
            "unsupported bind_host "@ + debug_quoted(host)
                + ": expected a loopback host, or \"0.0.0.0\" for LAN mode"@,
        )
    } else if !spec_is_loopback_host(host) && match options.auth_token {
        Some(t) => trimmed(t@).len() == 0,
        None => true,
    } {
        Some(
            "starting on a non-loopback bind_host (\"0.0.0.0\") requires a non-empty auth_token"@,
        )
    } else if (options.device matches Some(d) && d@ == "cuda"@) && (installed matches Some(p)
        && p.variant != RuntimeVariant::Gpu) {
        Some(
            "device \"cuda\" was requested but the currently-registered "@ + id
                + " build is the "@ + variant_name(installed->Some_0.variant)
                + " variant, which cannot run CUDA inference; install the gpu variant first"@,
        )
    } else {
        None
    }
}

/// The `Debug` rendering of a string: quoted, with `char::escape_debug`
/// escapes inside.
pub uninterp spec fn debug_quoted(s: Seq<char>) -> Seq<char>;

/// `format!("{s:?}")`: std's `Debug` rendering of a string slice. Its
/// result is [`debug_quoted`] of the argument; the escaping rules are not
/// spelled out.
#[verifier::external_body]
fn debug_quoted_str(s: &str) -> (r: String)
    ensures
        r@ == debug_quoted(s@),
{
    format!("{s:?}")
}

/// The next step of a start request.
#[derive(Debug)]
pub enum StartStep {
    /// The provider is already running: its descriptor (the request
    /// counted as activity).
    Running(RuntimeConnectionDescriptor),
    /// Nothing usable is running: allocate a port on `bind_host`, then
    /// [`RuntimeManager::prepare_launch`].
    AllocatePort { bind_host: String },
}

/// The program, args, env and working directory of a spawn.
pub open spec fn spawn_launch(s: SpawnSpec) -> LaunchView {
    LaunchView {
        program: s.program@,
        args: args_view(s.args@),
        env: env_view(s.env@),
        cwd: opt_view(s.cwd),
    }
}

/// Every operation is filed under its own id.
pub open spec fn ids_match(log: Seq<(Seq<char>, OperationView)>) -> bool {
    forall|i: int| 0 <= i < log.len() ==> (#[trigger] log[i]).1.operation_id == log[i].0
}

proof fn lemma_ids_match_remove(log: Seq<(Seq<char>, OperationView)>, j: int)
    requires
        ids_match(log),
        0 <= j < log.len(),
    ensures
        ids_match(log.remove(j)),
{
    let t = log.remove(j);
    assert forall|a: int| 0 <= a < t.len() implies (#[trigger] t[a]).1.operation_id == t[a].0 by {
        if a < j {
            assert(t[a] == log[a]);
        } else {
            assert(t[a] == log[a + 1]);
        }
    }
}

proof fn lemma_ids_match_update(log: Seq<(Seq<char>, OperationView)>, j: int, v: OperationView)
    requires
        ids_match(log),
        0 <= j < log.len(),
        v.operation_id == log[j].0,
    ensures
        ids_match(log.update(j, (log[j].0, v))),
{
    let t = log.update(j, (log[j].0, v));
    assert forall|a: int| 0 <= a < t.len() implies (#[trigger] t[a]).1.operation_id == t[a].0 by {
        if a != j {
            assert(t[a] == log[a]);
        }
    }
}

proof fn lemma_ids_match_upsert(log: Seq<(Seq<char>, OperationView)>, k: Seq<char>, v: OperationView)
    requires
        ids_match(log),
        v.operation_id == k,
    ensures
        ids_match(crate::assoc::upsert(log, k, v)),
{
    let t = crate::assoc::upsert(log, k, v);
    if crate::assoc::has_key(log, k) {
        let j = crate::assoc::key_index(log, k);
        assert forall|a: int| 0 <= a < t.len() implies (#[trigger] t[a]).1.operation_id == t[a].0 by {
            if a != j {
                assert(t[a] == log[a]);
            }
        }
    } else {
        assert forall|a: int| 0 <= a < t.len() implies (#[trigger] t[a]).1.operation_id == t[a].0 by {
            if a < log.len() {
                assert(t[a] == log[a]);
            }
        }
    }
}

/// Whether an operation has finished (completed or failed).
pub open spec fn is_finished(o: OperationView) -> bool {
    o.status != InstallOperationStatus::Downloading
}

/// How many operations of a log have finished.
pub open spec fn finished_count(log: Seq<(Seq<char>, OperationView)>) -> nat
    decreases log.len(),
{
    if log.len() == 0 {
        0
    } else {
        finished_count(log.drop_last()) + if is_finished(log.last().1) {
            1nat
        } else {
            0nat
        }
    }
}

/// Index of the oldest finished operation (meaningful when there is one).
pub open spec fn first_finished(log: Seq<(Seq<char>, OperationView)>) -> int {
    choose|i: int|
        0 <= i < log.len() && is_finished(#[trigger] log[i].1) && forall|j: int|
            0 <= j < i ==> !is_finished(#[trigger] log[j].1)
}

/// The log after making room: while more than
/// [`MAX_FINISHED_INSTALL_OPERATIONS`] operations have finished, the oldest
/// finished one is dropped.
pub open spec fn evicted(log: Seq<(Seq<char>, OperationView)>) -> Seq<(Seq<char>, OperationView)>
    decreases log.len(),
{
    let k = first_finished(log);
    if finished_count(log) > MAX_FINISHED_INSTALL_OPERATIONS && 0 <= k < log.len() {
        evicted(log.remove(k))
    } else {
        log
    }
}

/// A download just started.
pub open spec fn fresh_operation(
    operation_id: Seq<char>,
    provider_id: Seq<char>,
    variant: Option<Seq<char>>,
    model_id: Option<Seq<char>>,
) -> OperationView {
    OperationView {
        operation_id,
        provider_id,
        variant,
        model_id,
        status: InstallOperationStatus::Downloading,
        downloaded_bytes: 0,
        total_bytes: None,
        error: None,
    }
}

/// An in-flight download of `provider_id`'s `variant`.
pub open spec fn is_variant_download(
    o: OperationView,
    provider_id: Seq<char>,
    variant: Seq<char>,
) -> bool {
    o.provider_id == provider_id && o.variant == Some(variant) && o.status
        == InstallOperationStatus::Downloading
}

/// An in-flight download of `provider_id`'s model `model_id`.
pub open spec fn is_model_download(
    o: OperationView,
    provider_id: Seq<char>,
    model_id: Seq<char>,
) -> bool {
    o.provider_id == provider_id && o.model_id == Some(model_id) && o.status
        == InstallOperationStatus::Downloading
}

/// The operation with progress `downloaded` of `total` recorded.
pub open spec fn with_progress(o: OperationView, downloaded: u64, total: Option<u64>) -> OperationView {
    OperationView { downloaded_bytes: downloaded, total_bytes: total, ..o }
}

/// The operation finished: completed, or failed with a message.
pub open spec fn finished_with(o: OperationView, outcome: Result<(), Seq<char>>) -> OperationView {
    match outcome {
        Ok(()) => OperationView { status: InstallOperationStatus::Complete, ..o },
        Err(e) => OperationView { status: InstallOperationStatus::Failed, error: Some(e), ..o },
    }
}

pub proof fn lemma_finished_count_positive(log: Seq<(Seq<char>, OperationView)>)
    requires
        finished_count(log) > 0,
    ensures
        exists|i: int| 0 <= i < log.len() && is_finished(#[trigger] log[i].1),
    decreases log.len(),
{
    if !is_finished(log.last().1) {
        lemma_finished_count_positive(log.drop_last());
        let i = choose|i: int| 0 <= i < log.drop_last().len() && is_finished(
            #[trigger] log.drop_last()[i].1,
        );
        assert(log[i] == log.drop_last()[i]);
    } else {
        assert(is_finished(log[log.len() - 1].1));
    }
}

proof fn lemma_first_finished_is(log: Seq<(Seq<char>, OperationView)>, i: int)
    requires
        0 <= i < log.len(),
        is_finished(log[i].1),
        forall|j: int| 0 <= j < i ==> !is_finished(#[trigger] log[j].1),
    ensures
        first_finished(log) == i,
{
    let k = first_finished(log);
    if k < i {
        assert(!is_finished(log[k].1));
    }
    if k > i {
        assert(!is_finished(log[i].1));
    }
}

/// Removing an entry takes one off the finished count exactly when that
/// entry had finished.
proof fn lemma_finished_count_remove(log: Seq<(Seq<char>, OperationView)>, k: int)
    requires
        0 <= k < log.len(),
    ensures
        finished_count(log.remove(k)) + (if is_finished(log[k].1) {
            1int
        } else {
            0int
        }) == finished_count(log),
    decreases log.len(),
{
    if k == log.len() - 1 {
        assert(log.remove(k) =~= log.drop_last());
    } else {
        let t = log.remove(k);
        assert(t.drop_last() =~= log.drop_last().remove(k));
        assert(t.last() == log.last());
        lemma_finished_count_remove(log.drop_last(), k);
    }
}

/// A log whose entries are all in flight has no finished operation.
proof fn lemma_finished_count_zero(log: Seq<(Seq<char>, OperationView)>)
    requires
        forall|j: int| 0 <= j < log.len() ==> !is_finished(#[trigger] log[j].1),
    ensures
        finished_count(log) == 0,
    decreases log.len(),
{
    if log.len() > 0 {
        assert forall|j: int| 0 <= j < log.drop_last().len() implies !is_finished(
            #[trigger] log.drop_last()[j].1,
        ) by {
            assert(log.drop_last()[j] == log[j]);
        }
        lemma_finished_count_zero(log.drop_last());
        assert(!is_finished(log[log.len() - 1].1));
    }
}

/// Index of the first finished entry of `installs`, if any.
fn find_first_finished(installs: &Vec<(String, InstallOperationState)>) -> (r: Option<usize>)
    ensures
        match r {
            Some(k) => k < installs@.len() && first_finished(pairs(installs@)) == k as int
                && is_finished(pairs(installs@)[k as int].1),
            None => forall|j: int|
                0 <= j < installs@.len() ==> !is_finished(#[trigger] pairs(installs@)[j].1),
        },
{
    let ghost log = pairs(installs@);
    let mut j: usize = 0;
    while j < installs.len()
        invariant
            log == pairs(installs@),
            j <= installs@.len(),
            forall|k: int| 0 <= k < j ==> !is_finished(#[trigger] log[k].1),
        decreases installs.len() - j,
    {
        if installs[j].1.status != InstallOperationStatus::Downloading {
            proof {
                lemma_first_finished_is(log, j as int);
            }
            return Some(j);
        }
        j += 1;
    }
    None
}

/// Makes room in the operation table (see [`evicted`]).
fn evict_finished_operations_if_over_capacity(installs: &mut Vec<(String, InstallOperationState)>)
    requires
        keys_unique(pairs(old(installs)@)),
        ids_match(pairs(old(installs)@)),
    ensures
        keys_unique(pairs(final(installs)@)),
        ids_match(pairs(final(installs)@)),
        pairs(final(installs)@) == evicted(pairs(old(installs)@)),
{
    let ghost log = pairs(installs@);
    let mut count: usize = 0;
    let mut i: usize = 0;
    while i < installs.len()
        invariant
            log == pairs(installs@),
            installs@ == old(installs)@,
            i <= installs@.len(),
            count <= i,
            count == finished_count(log.take(i as int)),
        decreases installs.len() - i,
    {
        assert(log.take(i + 1).drop_last() =~= log.take(i as int));
        assert(log.take(i + 1).last() == log[i as int]);
        if installs[i].1.status != InstallOperationStatus::Downloading {
            count += 1;
        }
        i += 1;
    }
    assert(log.take(log.len() as int) =~= log);
    while count > MAX_FINISHED_INSTALL_OPERATIONS
        invariant
            keys_unique(pairs(installs@)),
            ids_match(pairs(installs@)),
            count == finished_count(pairs(installs@)),
            evicted(pairs(installs@)) == evicted(log),
        decreases installs.len(),
    {
        let ghost cur = pairs(installs@);
        match find_first_finished(installs) {
            Some(k) => {
                proof {
                    crate::assoc::lemma_as_map_remove(cur, k as int);
                    lemma_finished_count_remove(cur, k as int);
                    lemma_ids_match_remove(cur, k as int);
                }
                let _ = installs.remove(k);
                assert(pairs(installs@) =~= cur.remove(k as int));
                count -= 1;
            },
            None => {
                proof {
                    lemma_finished_count_zero(cur);
                }
                assert(false);
            },
        }
    }
}

/// Milliseconds since `last` at `now` (zero when the clock reads earlier).
pub open spec fn idle_elapsed(last_ms: u64, now_ms: u64) -> int {
    if now_ms >= last_ms {
        now_ms - last_ms
    } else {
        0
    }
}

/// An instance nobody used within `timeout` before `now`.
pub open spec fn is_idle(v: InstanceView, now_ms: u64, timeout_ms: u64) -> bool {
    idle_elapsed(v.last_activity_ms, now_ms) >= timeout_ms
}

/// The instances that are not idle.
pub open spec fn fresh_part(m: Map<Seq<char>, InstanceView>, now_ms: u64, timeout_ms: u64) -> Map<
    Seq<char>,
    InstanceView,
> {
    Map::new(|k: Seq<char>| m.contains_key(k) && !is_idle(m[k], now_ms, timeout_ms), |k: Seq<char>| m[k])
}

/// The ids of the idle instances.
pub open spec fn idle_ids(m: Map<Seq<char>, InstanceView>, now_ms: u64, timeout_ms: u64) -> Set<
    Seq<char>,
> {
    Set::new(|k: Seq<char>| m.contains_key(k) && is_idle(m[k], now_ms, timeout_ms))
}

pub open spec fn ids_view(v: Seq<String>) -> Seq<Seq<char>> {
    v.map_values(|s: String| s@)
}

proof fn lemma_keys_unique_take<V>(s: Seq<(Seq<char>, V)>, i: int)
    requires
        keys_unique(s),
        0 <= i <= s.len(),
    ensures
        keys_unique(s.take(i)),
{
    let t = s.take(i);
    assert forall|a: int, b: int|
        0 <= a < t.len() && 0 <= b < t.len() && a != b implies (#[trigger] t[a]).0 != (
    #[trigger] t[b]).0 by {
        assert(t[a] == s[a] && t[b] == s[b]);
    }
}

/// Coordinator of provider installs, model selections, running instances
/// and install operations.
pub struct RuntimeManager {
    hardware: HardwareReport,
    instances: Vec<(String, RunningInstance)>,
    installed: Vec<(String, InstalledProvider)>,
    selected_models: Vec<(String, String)>,
    installs: Vec<(String, InstallOperationState)>,
    /// `None` disables idle auto-stop.
    idle_timeout_ms: Option<u64>,
}

impl RuntimeManager {
    /// Every table has unique keys, and an operation is filed under its
    /// own id.
    pub closed spec fn wf(&self) -> bool {
        &&& keys_unique(pairs(self.instances@))
        &&& keys_unique(pairs(self.installed@))
        &&& keys_unique(pairs(self.selected_models@))
        &&& keys_unique(pairs(self.installs@))
        &&& ids_match(pairs(self.installs@))
    }

    /// Running (or last observed) instances by provider id.
    pub closed spec fn instances(&self) -> Map<Seq<char>, InstanceView> {
        table(self.instances@)
    }

    /// Registered launch builders by provider id.
    pub closed spec fn installed(&self) -> Map<Seq<char>, InstalledView> {
        table(self.installed@)
    }

    /// Selected model ids by provider id.
    pub closed spec fn selected(&self) -> Map<Seq<char>, Seq<char>> {
        table(self.selected_models@)
    }

    /// Tracked install operations, oldest first, keyed by operation id.
    pub closed spec fn operation_log(&self) -> Seq<(Seq<char>, OperationView)> {
        pairs(self.installs@)
    }

    /// Tracked install operations by operation id.
    pub open spec fn operations(&self) -> Map<Seq<char>, OperationView> {
        as_map(self.operation_log())
    }

    pub closed spec fn idle_timeout(&self) -> Option<u64> {
        self.idle_timeout_ms
    }

    pub closed spec fn spec_hardware(&self) -> HardwareReport {
        self.hardware
    }

    /// Everything but the running-instance table is as in `other`.
    pub open spec fn same_except_instances(&self, other: &RuntimeManager) -> bool {
        &&& self.installed() == other.installed()
        &&& self.selected() == other.selected()
        &&& self.operation_log() == other.operation_log()
        &&& self.operations() == other.operations()
        &&& self.idle_timeout() == other.idle_timeout()
        &&& self.spec_hardware() == other.spec_hardware()
    }

    /// A manager with nothing installed, selected, running or tracked.
    pub fn new(idle_timeout_ms: Option<u64>, hardware: HardwareReport) -> (r: RuntimeManager)
        ensures
            r.wf(),
            r.instances() == Map::<Seq<char>, InstanceView>::empty(),
            r.installed() == Map::<Seq<char>, InstalledView>::empty(),
            r.selected() == Map::<Seq<char>, Seq<char>>::empty(),
            r.operation_log() == Seq::<(Seq<char>, OperationView)>::empty(),
            r.operations() == Map::<Seq<char>, OperationView>::empty(),
            r.idle_timeout() == idle_timeout_ms,
            r.spec_hardware() == hardware,
    {
        let r = RuntimeManager {
            hardware,
            instances: Vec::new(),
            installed: Vec::new(),
            selected_models: Vec::new(),
            installs: Vec::new(),
            idle_timeout_ms,
        };
        assert(r.instances() =~= Map::<Seq<char>, InstanceView>::empty());
        assert(r.installed() =~= Map::<Seq<char>, InstalledView>::empty());
        assert(r.selected() =~= Map::<Seq<char>, Seq<char>>::empty());
        assert(r.operation_log() =~= Seq::<(Seq<char>, OperationView)>::empty());
        assert(r.operations() =~= Map::<Seq<char>, OperationView>::empty());
        r
    }

    /// The hardware report this manager was created with.
    pub fn hardware(&self) -> (r: &HardwareReport)
        ensures
            *r == self.spec_hardware(),
    {
        &self.hardware
    }

    /// The catalog with compatibility evaluated against this machine.
    pub fn list_providers(&self) -> (r: Vec<ProviderInfo>)
        ensures
            r@.len() == spec_catalog().len(),
            forall|i: int|
                0 <= i < r@.len() ==> {
                    let info = #[trigger] r@[i];
                    let e = spec_catalog()[i];
                    &&& info.id@ == e.id
                    &&& info.display_name@ == e.display_name
                    &&& info.protocol@ == e.protocol
                    &&& info.transport@ == e.transport
                    &&& info.compatible
                    &&& info.compatibility_reason.is_none()
                },
    {
        list_providers(&self.hardware)
    }

    /// Registers how to launch a provider (replacing any previous
    /// registration) and which variant that build is.
    pub fn register_install(&mut self, id: &ProviderId, variant: RuntimeVariant, launch: LaunchBuilder)
        requires
            old(self).wf(),
        ensures
            final(self).wf(),
            final(self).installed() == old(self).installed().insert(
                id@,
                InstalledView { variant, launch: launch@ },
            ),
            final(self).instances() == old(self).instances(),
            final(self).selected() == old(self).selected(),
            final(self).operation_log() == old(self).operation_log(),
            final(self).operations() == old(self).operations(),
            final(self).idle_timeout() == old(self).idle_timeout(),
            final(self).spec_hardware() == old(self).spec_hardware(),
    {
        table_insert(&mut self.installed, id.to_string(), InstalledProvider { variant, launch });
    }

    /// Whether a launch builder is registered for `id`.
    pub fn is_installed(&self, id: &ProviderId) -> (r: bool)
        requires
            self.wf(),
        ensures
            r == self.installed().contains_key(id@),
    {
        table_get(&self.installed, id.as_str()).is_some()
    }

    /// The variant an install request without an opinion gets: the one
    /// already registered for `id`, else the GPU build on a machine with an
    /// NVIDIA GPU and the CPU build otherwise. An explicit request wins.
    pub fn preferred_variant(&self, id: &ProviderId, requested: Option<RuntimeVariant>) -> (r:
        RuntimeVariant)
        requires
            self.wf(),
        ensures
            r == match requested {
                Some(v) => v,
                None => match opt_get(self.installed(), id@) {
                    Some(p) => p.variant,
                    None => if self.spec_hardware().has_nvidia_gpu {
                        RuntimeVariant::Gpu
                    } else {
                        RuntimeVariant::Cpu
                    },
                },
            },
    {
        if let Some(v) = requested {
            return v;
        }
        match table_get(&self.installed, id.as_str()) {
            Some(p) => p.variant,
            None => {
                if self.hardware.has_nvidia_gpu {
                    RuntimeVariant::Gpu
                } else {
                    RuntimeVariant::Cpu
                }
            },
        }
    }

    /// Selects which curated model `id` loads on its next start. Refused
    /// with `ProviderNotFound` for a provider outside the catalog and
    /// `ModelNotFound` for a model the provider does not list.
    pub fn select_model(&mut self, id: &ProviderId, model_id: &str) -> (r: Result<(), RuntimeError>)
        requires
            old(self).wf(),
        ensures
            final(self).wf(),
            final(self).instances() == old(self).instances(),
            final(self).installed() == old(self).installed(),
            final(self).operation_log() == old(self).operation_log(),
            final(self).operations() == old(self).operations(),
            final(self).idle_timeout() == old(self).idle_timeout(),
            final(self).spec_hardware() == old(self).spec_hardware(),
            match r {
                Ok(()) => catalog_has(id@) && entry_has_model(catalog_entry(id@), model_id@)
                    && final(self).selected() == old(self).selected().insert(id@, model_id@),
                Err(RuntimeError::ProviderNotFound(m)) => !catalog_has(id@) && m@ == id@
                    && final(self).selected() == old(self).selected(),
                Err(RuntimeError::ModelNotFound(m)) => catalog_has(id@) && !entry_has_model(
                    catalog_entry(id@),
                    model_id@,
                ) && m@ == model_id@ && final(self).selected() == old(self).selected(),
                Err(_) => false,
            },
    {
        let entry = match find_provider(id) {
            Ok(e) => e,
            Err(e) => return Err(e),
        };
        if find_model(&entry, model_id).is_none() {
            return Err(RuntimeError::ModelNotFound(owned(model_id)));
        }
        table_insert(&mut self.selected_models, id.to_string(), owned(model_id));
        Ok(())
    }

    /// The model selected for `id`, if any.
    pub fn selected_model(&self, id: &ProviderId) -> (r: Option<String>)
        requires
            self.wf(),
        ensures
            opt_view(r) == opt_get(self.selected(), id@),
    {
        match table_get(&self.selected_models, id.as_str()) {
            Some(m) => Some(m.clone()),
            None => None,
        }
    }

    /// The status of `id`'s instance; `Stopped` when there is none.
    pub fn status(&self, id: &ProviderId) -> (r: RuntimeStatus)
        requires
            self.wf(),
        ensures
            r == status_of(self.instances(), id@),
    {
        match table_get(&self.instances, id.as_str()) {
            Some(inst) => inst.status,
            None => RuntimeStatus::Stopped,
        }
    }

    /// Replaces the entry of `id`'s instance (which must exist) by `f`'s
    /// view, keeping the table's keys.
    fn update_instance(&mut self, i: usize, inst: RunningInstance)
        requires
            old(self).wf(),
            i < old(self).instances@.len(),
        ensures
            final(self).wf(),
            final(self).instances() == old(self).instances().insert(
                old(self).instances@[i as int].0@,
                inst@,
            ),
            final(self).same_except_instances(&*old(self)),
    {
        let key = self.instances[i].0.clone();
        proof {
            lemma_as_map_update(pairs(self.instances@), i as int, inst@);
        }
        self.instances.set(i, (key, inst));
        assert(pairs(self.instances@) =~= pairs(old(self).instances@).update(
            i as int,
            (pairs(old(self).instances@)[i as int].0, inst@),
        ));
    }

    /// Copies out the instance at `i` with its activity clock at `now`.
    fn touched_copy(&self, i: usize, now_ms: u64) -> (r: RunningInstance)
        requires
            i < self.instances@.len(),
        ensures
            r@ == touched(self.instances@[i as int].1@, now_ms),
    {
        let e = &self.instances[i].1;
        RunningInstance {
            port: e.port,
            auth_token: e.auth_token.clone(),
            status: e.status,
            last_activity_ms: now_ms,
            streaming: copy_streaming(&e.streaming),
        }
    }

    /// Applies a liveness poll of `id`'s process to its recorded status
    /// (see [`spec_observed_status`]); nothing happens when there is no
    /// instance.
    pub fn observe(&mut self, id: &ProviderId, poll: ExitPoll)
        requires
            old(self).wf(),
        ensures
            final(self).wf(),
            final(self).same_except_instances(&*old(self)),
            final(self).instances() == (if old(self).instances().contains_key(id@) {
                old(self).instances().insert(
                    id@,
                    with_status(
                        old(self).instances()[id@],
                        spec_observed_status(old(self).instances()[id@].status, poll),
                    ),
                )
            } else {
                old(self).instances()
            }),
    {
        match find_key(&self.instances, id.as_str()) {
            Some(i) => {
                proof {
                    lemma_as_map_at(pairs(self.instances@), i as int);
                }
                let e = &self.instances[i].1;
                let inst = RunningInstance {
                    port: e.port,
                    auth_token: e.auth_token.clone(),
                    status: observed_status(e.status, poll),
                    last_activity_ms: e.last_activity_ms,
                    streaming: copy_streaming(&e.streaming),
                };
                self.update_instance(i, inst);
            },
            None => {},
        }
    }

    /// Records that `id` is in use at `now`, resetting its idle clock.
    /// `RuntimeNotRunning` when it has no instance.
    pub fn touch(&mut self, id: &ProviderId, now_ms: u64) -> (r: Result<(), RuntimeError>)
        requires
            old(self).wf(),
        ensures
            final(self).wf(),
            final(self).same_except_instances(&*old(self)),
            match r {
                Ok(()) => old(self).instances().contains_key(id@) && final(self).instances()
                    == old(self).instances().insert(id@, touched(old(self).instances()[id@], now_ms)),
                Err(RuntimeError::RuntimeNotRunning(m)) => !old(self).instances().contains_key(
                    id@,
                ) && m@ == id@ && final(self).instances() == old(self).instances(),
                Err(_) => false,
            },
    {
        match find_key(&self.instances, id.as_str()) {
            Some(i) => {
                proof {
                    lemma_as_map_at(pairs(self.instances@), i as int);
                }
                let inst = self.touched_copy(i, now_ms);
                self.update_instance(i, inst);
                Ok(())
            },
            None => {
                proof {
                    crate::assoc::lemma_as_map_absent(pairs(self.instances@), id@);
                }
                Err(RuntimeError::RuntimeNotRunning(id.to_string()))
            },
        }
    }

    /// Takes `id`'s instance out of the table, for the caller to stop its
    /// process. `RuntimeNotRunning` when there is none.
    pub fn stop(&mut self, id: &ProviderId) -> (r: Result<RunningInstance, RuntimeError>)
        requires
            old(self).wf(),
        ensures
            final(self).wf(),
            final(self).same_except_instances(&*old(self)),
            final(self).instances() == old(self).instances().remove(id@),
            match r {
                Ok(inst) => old(self).instances().contains_key(id@) && inst@ == old(
                    self,
                ).instances()[id@],
                Err(RuntimeError::RuntimeNotRunning(m)) => !old(self).instances().contains_key(
                    id@,
                ) && m@ == id@,
                Err(_) => false,
            },
    {
        match table_remove(&mut self.instances, id.as_str()) {
            Some(inst) => Ok(inst),
            None => Err(RuntimeError::RuntimeNotRunning(id.to_string())),
        }
    }

    /// The descriptor of `id`'s running instance, counting as activity.
    /// `ProviderNotFound` outside the catalog; `RuntimeNotRunning` when it
    /// has no instance or its instance is not `Running`.
    pub fn descriptor(&mut self, id: &ProviderId, now_ms: u64) -> (r: Result<
        RuntimeConnectionDescriptor,
        RuntimeError,
    >)
        requires
            old(self).wf(),
        ensures
            final(self).wf(),
            final(self).same_except_instances(&*old(self)),
            match r {
                Ok(d) => {
                    let inst = old(self).instances()[id@];
                    &&& catalog_has(id@)
                    &&& old(self).instances().contains_key(id@)
                    &&& inst.status == RuntimeStatus::Running
                    &&& descriptor_is(d, catalog_entry(id@), inst.port, inst.auth_token, inst.streaming)
                    &&& final(self).instances() == old(self).instances().insert(id@, touched(inst, now_ms))
                },
                Err(RuntimeError::ProviderNotFound(m)) => !catalog_has(id@) && m@ == id@
                    && final(self).instances() == old(self).instances(),
                Err(RuntimeError::RuntimeNotRunning(m)) => catalog_has(id@) && !(old(
                    self,
                ).instances().contains_key(id@) && old(self).instances()[id@].status
                    == RuntimeStatus::Running) && m@ == id@ && final(self).instances() == old(
                    self,
                ).instances(),
                Err(_) => false,
            },
    {
        let entry = match find_provider(id) {
            Ok(e) => e,
            Err(e) => return Err(e),
        };
        match find_key(&self.instances, id.as_str()) {
            Some(i) => {
                proof {
                    lemma_as_map_at(pairs(self.instances@), i as int);
                }
                if self.instances[i].1.status != RuntimeStatus::Running {
                    return Err(RuntimeError::RuntimeNotRunning(id.to_string()));
                }
                let inst = self.touched_copy(i, now_ms);
                let d = descriptor_for(&entry, inst.port, inst.auth_token.as_str(), &inst.streaming);
                self.update_instance(i, inst);
                Ok(d)
            },
            None => {
                proof {
                    crate::assoc::lemma_as_map_absent(pairs(self.instances@), id@);
                }
                Err(RuntimeError::RuntimeNotRunning(id.to_string()))
            },
        }
    }

    /// The options' refusal, if any (see [`start_rejection`]).
    fn check_start_options(&self, id: &ProviderId, options: &StartOptions) -> (r: Result<
        (),
        RuntimeError,
    >)
        requires
            self.wf(),
        ensures
            match start_rejection(id@, *options, opt_get(self.installed(), id@)) {
                Some(msg) => r matches Err(RuntimeError::InvalidStartOptions(m)) && m@ == msg,
                None => r is Ok,
            },
    {
        let host: &str = match &options.bind_host {
            Some(h) => h.as_str(),
            None => "127.0.0.1",
        };
        assert(host@ == bind_host_of(*options));
        if !is_loopback_host(host) {
            if !str_eq(host, "0.0.0.0") {
                let mut msg = owned("unsupported bind_host ");
                let quoted = debug_quoted_str(host);
                msg.append(quoted.as_str());
                msg.append(": expected a loopback host, or \"0.0.0.0\" for LAN mode");
                return Err(RuntimeError::InvalidStartOptions(msg));
            }
            let token_blank = match &options.auth_token {
                Some(t) => is_blank(t.as_str()),
                None => true,
            };
            if token_blank {
                return Err(
                    RuntimeError::InvalidStartOptions(
                        owned(
                            "starting on a non-loopback bind_host (\"0.0.0.0\") requires a non-empty auth_token",
                        ),
                    ),
                );
            }
        }
        let wants_cuda = match &options.device {
            Some(d) => str_eq(d.as_str(), "cuda"),
            None => false,
        };
        if wants_cuda {
            match table_get(&self.installed, id.as_str()) {
                Some(p) => {
                    if p.variant != RuntimeVariant::Gpu {
                        let mut msg = concat(
                            "device \"cuda\" was requested but the currently-registered ",
                            id.as_str(),
                        );
                        msg.append(" build is the ");
                        msg.append(p.variant.as_str());
                        msg.append(
                            " variant, which cannot run CUDA inference; install the gpu variant first",
                        );
                        return Err(RuntimeError::InvalidStartOptions(msg));
                    }
                },
                None => {},
            }
        }
        Ok(())
    }

    /// First step of starting `id`. Outside the catalog: `ProviderNotFound`,
    /// nothing changes. A `Running` instance is reused: its descriptor is
    /// returned and the call counts as activity. Otherwise any stale
    /// (stopped or crashed) entry is dropped, the options are checked (see
    /// [`start_rejection`]: `InvalidStartOptions`), and the caller is told
    /// to allocate a port on the bind host.
    pub fn start(&mut self, id: &ProviderId, options: &StartOptions, now_ms: u64) -> (r: Result<
        StartStep,
        RuntimeError,
    >)
        requires
            old(self).wf(),
        ensures
            final(self).wf(),
            final(self).same_except_instances(&*old(self)),
            !catalog_has(id@) ==> (r matches Err(RuntimeError::ProviderNotFound(m)) && m@ == id@)
                && final(self).instances() == old(self).instances(),
            catalog_has(id@) ==> {
                let before = old(self).instances();
                if before.contains_key(id@) && before[id@].status == RuntimeStatus::Running {
                    &&& r matches Ok(StartStep::Running(d)) && descriptor_is(
                        d,
                        catalog_entry(id@),
                        before[id@].port,
                        before[id@].auth_token,
                        before[id@].streaming,
                    )
                    &&& final(self).instances() == before.insert(id@, touched(before[id@], now_ms))
                } else {
                    &&& final(self).instances() == before.remove(id@)
                    &&& match start_rejection(id@, *options, opt_get(old(self).installed(), id@)) {
                        Some(msg) => r matches Err(RuntimeError::InvalidStartOptions(m)) && m@
                            == msg,
                        None => r matches Ok(StartStep::AllocatePort { bind_host }) && bind_host@
                            == bind_host_of(*options),
                    }
                }
            },
    {
        let entry = match find_provider(id) {
            Ok(e) => e,
            Err(e) => return Err(e),
        };
        match find_key(&self.instances, id.as_str()) {
            Some(i) => {
                proof {
                    lemma_as_map_at(pairs(self.instances@), i as int);
                }
                if self.instances[i].1.status == RuntimeStatus::Running {
                    let inst = self.touched_copy(i, now_ms);
                    let d = descriptor_for(
                        &entry,
                        inst.port,
                        inst.auth_token.as_str(),
                        &inst.streaming,
                    );
                    self.update_instance(i, inst);
                    return Ok(StartStep::Running(d));
                }
                let _ = table_remove(&mut self.instances, id.as_str());
            },
            None => {
                assert(old(self).instances().remove(id@) =~= old(self).instances());
            },
        }
        match self.check_start_options(id, options) {
            Ok(()) => {},
            Err(e) => return Err(e),
        }
        let host: &str = match &options.bind_host {
            Some(h) => h.as_str(),
            None => "127.0.0.1",
        };
        Ok(StartStep::AllocatePort { bind_host: owned(host) })
    }

    /// Second step of starting `id`, once a port is allocated: what to
    /// spawn. The auth token is the one in the options, else a fresh
    /// random one; the launch is the registered builder's for that port,
    /// token, the selected model, the options and the model cache root.
    /// `ProviderNotFound` outside the catalog, `ProviderNotInstalled` when
    /// no builder is registered.
    pub fn prepare_launch(
        &self,
        id: &ProviderId,
        options: &StartOptions,
        port: u16,
        model_root: &str,
    ) -> (r: Result<SpawnSpec, RuntimeError>)
        requires
            self.wf(),
        ensures
            match r {
                Ok(spec) => {
                    &&& catalog_has(id@)
                    &&& self.installed().contains_key(id@)
                    &&& spec.health_path@ == catalog_entry(id@).health_path
                    &&& (options.auth_token matches Some(t) ==> spec.auth_token@ == t@)
                    &&& spawn_launch(spec) == spec_build(
                        self.installed()[id@].launch,
                        port,
                        spec.auth_token@,
                        opt_get(self.selected(), id@),
                        *options,
                        model_root@,
                    )
                },
                Err(RuntimeError::ProviderNotFound(m)) => !catalog_has(id@) && m@ == id@,
                Err(RuntimeError::ProviderNotInstalled(m)) => catalog_has(id@)
                    && !self.installed().contains_key(id@) && m@ == id@,
                Err(_) => false,
            },
    {
        let entry = match find_provider(id) {
            Ok(e) => e,
            Err(e) => return Err(e),
        };
        let auth_token = match &options.auth_token {
            Some(t) => t.clone(),
            None => new_uuid(),
        };
        let selected = self.selected_model(id);
        let selected_str: Option<&str> = match &selected {
            Some(m) => Some(m.as_str()),
            None => None,
        };
        let installed = match table_get(&self.installed, id.as_str()) {
            Some(p) => p,
            None => return Err(RuntimeError::ProviderNotInstalled(id.to_string())),
        };
        let launch = installed.launch.build(
            port,
            auth_token.as_str(),
            selected_str,
            options,
            model_root,
        );
        Ok(
            SpawnSpec {
                program: launch.program,
                args: launch.args,
                env: launch.env,
                cwd: launch.cwd,
                health_path: entry.health_path.clone(),
                auth_token,
            },
        )
    }

    /// Last step of starting `id`: its process reported healthy on `port`
    /// and advertised `streaming`. The instance is recorded as `Running`,
    /// used at `now`, and its descriptor returned. `ProviderNotFound`
    /// outside the catalog, nothing recorded.
    pub fn record_started(
        &mut self,
        id: &ProviderId,
        port: u16,
        auth_token: String,
        streaming: Option<StreamingCapability>,
        now_ms: u64,
    ) -> (r: Result<RuntimeConnectionDescriptor, RuntimeError>)
        requires
            old(self).wf(),
        ensures
            final(self).wf(),
            final(self).same_except_instances(&*old(self)),
            match r {
                Ok(d) => {
                    &&& catalog_has(id@)
                    &&& descriptor_is(
                        d,
                        catalog_entry(id@),
                        port,
                        auth_token@,
                        streaming_view(streaming),
                    )
                    &&& final(self).instances() == old(self).instances().insert(
                        id@,
                        InstanceView {
                            port,
                            auth_token: auth_token@,
                            status: RuntimeStatus::Running,
                            last_activity_ms: now_ms,
                            streaming: streaming_view(streaming),
                        },
                    )
                },
                Err(RuntimeError::ProviderNotFound(m)) => !catalog_has(id@) && m@ == id@
                    && final(self).instances() == old(self).instances(),
                Err(_) => false,
            },
    {
        let entry = match find_provider(id) {
            Ok(e) => e,
            Err(e) => return Err(e),
        };
        let d = descriptor_for(&entry, port, auth_token.as_str(), &streaming);
        let inst = RunningInstance {
            port,
            auth_token,
            status: RuntimeStatus::Running,
            last_activity_ms: now_ms,
            streaming,
        };
        table_insert(&mut self.instances, id.to_string(), inst);
        Ok(d)
    }

    /// Index of an in-flight download of `provider`'s variant (`is_variant`)
    /// or model named `key`, if any.
    fn find_inflight(&self, provider: &str, is_variant: bool, key: &str) -> (r: Option<usize>)
        ensures
            match r {
                Some(i) => i < self.operation_log().len() && (if is_variant {
                    is_variant_download(self.operation_log()[i as int].1, provider@, key@)
                } else {
                    is_model_download(self.operation_log()[i as int].1, provider@, key@)
                }),
                None => forall|i: int|
                    0 <= i < self.operation_log().len() ==> !(if is_variant {
                        is_variant_download(#[trigger] self.operation_log()[i].1, provider@, key@)
                    } else {
                        is_model_download(self.operation_log()[i].1, provider@, key@)
                    }),
            },
    {
        let mut i: usize = 0;
        while i < self.installs.len()
            invariant
                i <= self.installs@.len(),
                forall|j: int|
                    0 <= j < i ==> !(if is_variant {
                        is_variant_download(#[trigger] pairs(self.installs@)[j].1, provider@, key@)
                    } else {
                        is_model_download(pairs(self.installs@)[j].1, provider@, key@)
                    }),
            decreases self.installs.len() - i,
        {
            let op = &self.installs[i].1;
            assert(pairs(self.installs@)[i as int].1 == op@);
            let field: &Option<String> = if is_variant {
                &op.variant
            } else {
                &op.model_id
            };
            let key_matches = match field {
                Some(v) => str_eq(v.as_str(), key),
                None => false,
            };
            if str_eq(op.provider_id.as_str(), provider) && key_matches && op.status
                == InstallOperationStatus::Downloading {
                return Some(i);
            }
            i += 1;
        }
        None
    }

    /// Starts tracking a fresh download (after making room, see
    /// [`evicted`]) and returns its new operation id.
    fn track_download(&mut self, provider_id: &ProviderId, variant: Option<String>, model_id: Option<
        String,
    >) -> (r: String)
        requires
            old(self).wf(),
        ensures
            final(self).wf(),
            final(self).operation_log() == crate::assoc::upsert(
                evicted(old(self).operation_log()),
                r@,
                fresh_operation(r@, provider_id@, opt_view(variant), opt_view(model_id)),
            ),
            final(self).instances() == old(self).instances(),
            final(self).installed() == old(self).installed(),
            final(self).selected() == old(self).selected(),
            final(self).idle_timeout() == old(self).idle_timeout(),
            final(self).spec_hardware() == old(self).spec_hardware(),
    {
        let operation_id = new_uuid();
        evict_finished_operations_if_over_capacity(&mut self.installs);
        let state = InstallOperationState {
            operation_id: operation_id.clone(),
            provider_id: provider_id.to_string(),
            variant,
            model_id,
            status: InstallOperationStatus::Downloading,
            downloaded_bytes: 0,
            total_bytes: None,
            error: None,
        };
        proof {
            lemma_ids_match_upsert(pairs(self.installs@), operation_id@, state@);
        }
        table_insert(&mut self.installs, operation_id.clone(), state);
        operation_id
    }

    /// Installs `variant` of `id`. `ProviderNotFound` for a provider
    /// outside the catalog or one this manager cannot install. When a local
    /// copy was found (`local`, the outcome of
    /// [`crate::providers::faster_whisper::install_local`]) it is registered
    /// at once. Otherwise an in-flight download of the same variant is
    /// reused, or a new one is tracked. The flag says whether the caller
    /// must now run that new download.
    pub fn begin_install(
        &mut self,
        id: &ProviderId,
        variant: RuntimeVariant,
        local: Option<LaunchBuilder>,
    ) -> (r: Result<(InstallOutcome, bool), RuntimeError>)
        requires
            old(self).wf(),
        ensures
            final(self).wf(),
            final(self).instances() == old(self).instances(),
            final(self).selected() == old(self).selected(),
            final(self).idle_timeout() == old(self).idle_timeout(),
            final(self).spec_hardware() == old(self).spec_hardware(),
            (!catalog_has(id@) || id@ != "faster-whisper"@) ==> {
                &&& r matches Err(RuntimeError::ProviderNotFound(m)) && m@ == id@
                &&& final(self).installed() == old(self).installed()
                &&& final(self).operation_log() == old(self).operation_log()
            },
            (catalog_has(id@) && id@ == "faster-whisper"@) ==> match local {
                Some(l) => {
                    &&& r matches Ok((InstallOutcome::Installed { provider_id, variant: v }, started))
                        && !started && provider_id@ == id@ && v@ == variant_name(variant)
                    &&& final(self).installed() == old(self).installed().insert(
                        id@,
                        InstalledView { variant, launch: l@ },
                    )
                    &&& final(self).operation_log() == old(self).operation_log()
                },
                None => {
                    let log = old(self).operation_log();
                    let vn = variant_name(variant);
                    &&& final(self).installed() == old(self).installed()
                    &&& if exists|i: int|
                        0 <= i < log.len() && is_variant_download(#[trigger] log[i].1, id@, vn) {
                        &&& r matches Ok(
                            (InstallOutcome::Downloading { operation_id, variant: v }, started),
                        ) && !started && v@ == vn && exists|i: int|
                            0 <= i < log.len() && is_variant_download(#[trigger] log[i].1, id@, vn)
                                && log[i].0 == operation_id@
                        &&& final(self).operation_log() == log
                    } else {
                        r matches Ok(
                            (InstallOutcome::Downloading { operation_id, variant: v }, started),
                        ) && started && v@ == vn && final(self).operation_log()
                            == crate::assoc::upsert(
                            evicted(log),
                            operation_id@,
                            fresh_operation(operation_id@, id@, Some(vn), None),
                        )
                    }
                },
            },
    {
        match find_provider(id) {
            Ok(_) => {},
            Err(e) => return Err(e),
        }
        if !str_eq(id.as_str(), "faster-whisper") {
            return Err(RuntimeError::ProviderNotFound(id.to_string()));
        }
        if let Some(launch) = local {
            self.register_install(id, variant, launch);
            return Ok(
                (
                    InstallOutcome::Installed {
                        provider_id: id.to_string(),
                        variant: owned(variant.as_str()),
                    },
                    false,
                ),
            );
        }
        match self.find_inflight(id.as_str(), true, variant.as_str()) {
            Some(i) => {
                let operation_id = self.installs[i].0.clone();
                return Ok(
                    (
                        InstallOutcome::Downloading {
                            operation_id,
                            variant: owned(variant.as_str()),
                        },
                        false,
                    ),
                );
            },
            None => {},
        }
        let operation_id = self.track_download(id, Some(owned(variant.as_str())), None);
        Ok((InstallOutcome::Downloading { operation_id, variant: owned(variant.as_str()) }, true))
    }

    /// Checks that `id` is in the catalog and lists `model_id`:
    /// `ProviderNotFound` or `ModelNotFound` otherwise.
    fn check_model(id: &ProviderId, model_id: &str) -> (r: Result<(), RuntimeError>)
        ensures
            match r {
                Ok(()) => catalog_has(id@) && entry_has_model(catalog_entry(id@), model_id@),
                Err(RuntimeError::ProviderNotFound(m)) => !catalog_has(id@) && m@ == id@,
                Err(RuntimeError::ModelNotFound(m)) => catalog_has(id@) && !entry_has_model(
                    catalog_entry(id@),
                    model_id@,
                ) && m@ == model_id@,
                Err(_) => false,
            },
    {
        let entry = match find_provider(id) {
            Ok(e) => e,
            Err(e) => return Err(e),
        };
        if find_model(&entry, model_id).is_none() {
            return Err(RuntimeError::ModelNotFound(owned(model_id)));
        }
        Ok(())
    }

    /// Pulls `model_id`'s weights for `id`. `ProviderNotFound` outside the
    /// catalog (or for a provider this manager cannot pull for),
    /// `ModelNotFound` for a model the provider does not list, `Io` when
    /// probing the cached weights failed. Weights already present: `Cached`.
    /// Otherwise an in-flight pull of the same model is reused, or a new
    /// one is tracked; the flag says whether the caller must run it.
    pub fn begin_model_pull(&mut self, id: &ProviderId, model_id: &str, weights: &FileProbe) -> (r:
        Result<(ModelPullOutcome, bool), RuntimeError>)
        requires
            old(self).wf(),
        ensures
            final(self).wf(),
            final(self).instances() == old(self).instances(),
            final(self).installed() == old(self).installed(),
            final(self).selected() == old(self).selected(),
            final(self).idle_timeout() == old(self).idle_timeout(),
            final(self).spec_hardware() == old(self).spec_hardware(),
            !catalog_has(id@) ==> (r matches Err(RuntimeError::ProviderNotFound(m)) && m@ == id@),
            catalog_has(id@) && !entry_has_model(catalog_entry(id@), model_id@) ==> (r matches Err(
                RuntimeError::ModelNotFound(m),
            ) && m@ == model_id@),
            catalog_has(id@) && entry_has_model(catalog_entry(id@), model_id@) && id@
                != "faster-whisper"@ ==> (r matches Err(RuntimeError::ProviderNotFound(m)) && m@
                == id@),
            r is Err ==> final(self).operation_log() == old(self).operation_log(),
            (catalog_has(id@) && entry_has_model(catalog_entry(id@), model_id@) && id@
                == "faster-whisper"@) ==> match spec_weights_status(*weights) {
                Err(msg) => r matches Err(RuntimeError::Io(m)) && m@ == msg,
                Ok(Some(_)) => r matches Ok((ModelPullOutcome::Cached, started)) && !started
                    && final(self).operation_log() == old(self).operation_log(),
                Ok(None) => {
                    let log = old(self).operation_log();
                    if exists|i: int|
                        0 <= i < log.len() && is_model_download(#[trigger] log[i].1, id@, model_id@) {
                        &&& r matches Ok((ModelPullOutcome::Downloading { operation_id }, started))
                            && !started && exists|i: int|
                            0 <= i < log.len() && is_model_download(
                                #[trigger] log[i].1,
                                id@,
                                model_id@,
                            ) && log[i].0 == operation_id@
                        &&& final(self).operation_log() == log
                    } else {
                        r matches Ok((ModelPullOutcome::Downloading { operation_id }, started))
                            && started && final(self).operation_log() == crate::assoc::upsert(
                            evicted(log),
                            operation_id@,
                            fresh_operation(operation_id@, id@, None, Some(model_id@)),
                        )
                    }
                },
            },
    {
        match Self::check_model(id, model_id) {
            Ok(()) => {},
            Err(e) => return Err(e),
        }
        if !str_eq(id.as_str(), "faster-whisper") {
            return Err(RuntimeError::ProviderNotFound(id.to_string()));
        }
        match verify_cached_model(weights) {
            Ok(Some(_)) => return Ok((ModelPullOutcome::Cached, false)),
            Ok(None) => {},
            Err(e) => return Err(e),
        }
        match self.find_inflight(id.as_str(), false, model_id) {
            Some(i) => {
                let operation_id = self.installs[i].0.clone();
                return Ok((ModelPullOutcome::Downloading { operation_id }, false));
            },
            None => {},
        }
        let operation_id = self.track_download(id, None, Some(owned(model_id)));
        Ok((ModelPullOutcome::Downloading { operation_id }, true))
    }

    /// The tracked operation `operation_id`, if any.
    pub fn install_operation(&self, operation_id: &str) -> (r: Option<InstallOperationState>)
        requires
            self.wf(),
        ensures
            match r {
                Some(o) => self.operations().contains_key(operation_id@) && o@
                    == self.operations()[operation_id@],
                None => !self.operations().contains_key(operation_id@),
            },
    {
        match table_get(&self.installs, operation_id) {
            Some(o) => Some(o.duplicate()),
            None => None,
        }
    }

    /// Replaces the operation at index `i` by one with the same id.
    fn update_operation(&mut self, i: usize, op: InstallOperationState)
        requires
            old(self).wf(),
            i < old(self).installs@.len(),
            op@.operation_id == old(self).operation_log()[i as int].0,
        ensures
            final(self).wf(),
            final(self).operation_log() == old(self).operation_log().update(
                i as int,
                (old(self).operation_log()[i as int].0, op@),
            ),
            final(self).instances() == old(self).instances(),
            final(self).installed() == old(self).installed(),
            final(self).selected() == old(self).selected(),
            final(self).idle_timeout() == old(self).idle_timeout(),
            final(self).spec_hardware() == old(self).spec_hardware(),
    {
        let key = self.installs[i].0.clone();
        proof {
            lemma_as_map_update(pairs(self.installs@), i as int, op@);
            lemma_ids_match_update(pairs(self.installs@), i as int, op@);
        }
        self.installs.set(i, (key, op));
        assert(pairs(self.installs@) =~= pairs(old(self).installs@).update(
            i as int,
            (pairs(old(self).installs@)[i as int].0, op@),
        ));
    }

    /// Records download progress of `operation_id`; nothing happens for an
    /// unknown id.
    pub fn record_progress(&mut self, operation_id: &str, downloaded_bytes: u64, total_bytes: Option<
        u64,
    >)
        requires
            old(self).wf(),
        ensures
            final(self).wf(),
            final(self).instances() == old(self).instances(),
            final(self).installed() == old(self).installed(),
            final(self).selected() == old(self).selected(),
            final(self).idle_timeout() == old(self).idle_timeout(),
            final(self).spec_hardware() == old(self).spec_hardware(),
            final(self).operation_log() == (if crate::assoc::has_key(
                old(self).operation_log(),
                operation_id@,
            ) {
                let i = crate::assoc::key_index(old(self).operation_log(), operation_id@);
                old(self).operation_log().update(
                    i,
                    (
                        operation_id@,
                        with_progress(
                            old(self).operation_log()[i].1,
                            downloaded_bytes,
                            total_bytes,
                        ),
                    ),
                )
            } else {
                old(self).operation_log()
            }),
    {
        match find_key(&self.installs, operation_id) {
            Some(i) => {
                proof {
                    crate::assoc::lemma_key_index(pairs(self.installs@), i as int);
                }
                let mut op = self.installs[i].1.duplicate();
                op.downloaded_bytes = downloaded_bytes;
                op.total_bytes = total_bytes;
                self.update_operation(i, op);
            },
            None => {},
        }
    }

    /// Marks `operation_id` finished: `Complete` on `Ok`, `Failed` with the
    /// message on `Err`. Nothing happens for an unknown id.
    pub fn finish_operation(&mut self, operation_id: &str, outcome: Result<(), String>)
        requires
            old(self).wf(),
        ensures
            final(self).wf(),
            final(self).instances() == old(self).instances(),
            final(self).installed() == old(self).installed(),
            final(self).selected() == old(self).selected(),
            final(self).idle_timeout() == old(self).idle_timeout(),
            final(self).spec_hardware() == old(self).spec_hardware(),
            final(self).operation_log() == (if crate::assoc::has_key(
                old(self).operation_log(),
                operation_id@,
            ) {
                let i = crate::assoc::key_index(old(self).operation_log(), operation_id@);
                old(self).operation_log().update(
                    i,
                    (
                        operation_id@,
                        finished_with(
                            old(self).operation_log()[i].1,
                            match outcome {
                                Ok(()) => Ok(()),
                                Err(e) => Err(e@),
                            },
                        ),
                    ),
                )
            } else {
                old(self).operation_log()
            }),
    {
        match find_key(&self.installs, operation_id) {
            Some(i) => {
                proof {
                    crate::assoc::lemma_key_index(pairs(self.installs@), i as int);
                }
                let mut op = self.installs[i].1.duplicate();
                match outcome {
                    Ok(()) => {
                        op.status = InstallOperationStatus::Complete;
                    },
                    Err(e) => {
                        op.status = InstallOperationStatus::Failed;
                        op.error = Some(e);
                    },
                }
                self.update_operation(i, op);
            },
            None => {},
        }
    }

    /// Uninstalls one variant of `id`: `ProviderNotFound` outside the
    /// catalog, nothing changes. Otherwise any running instance is taken
    /// out (returned, for the caller to stop) before the caller deletes the
    /// variant's cached copy.
    pub fn uninstall_variant(&mut self, id: &ProviderId) -> (r: Result<
        Option<RunningInstance>,
        RuntimeError,
    >)
        requires
            old(self).wf(),
        ensures
            final(self).wf(),
            final(self).same_except_instances(&*old(self)),
            match r {
                Ok(stopped) => {
                    &&& catalog_has(id@)
                    &&& final(self).instances() == old(self).instances().remove(id@)
                    &&& match stopped {
                        Some(inst) => old(self).instances().contains_key(id@) && inst@ == old(
                            self,
                        ).instances()[id@],
                        None => !old(self).instances().contains_key(id@),
                    }
                },
                Err(RuntimeError::ProviderNotFound(m)) => !catalog_has(id@) && m@ == id@
                    && final(self).instances() == old(self).instances(),
                Err(_) => false,
            },
    {
        match find_provider(id) {
            Ok(_) => {},
            Err(e) => return Err(e),
        }
        Ok(table_remove(&mut self.instances, id.as_str()))
    }

    /// Uninstalls `id` entirely: any running instance is taken out
    /// (returned, for the caller to stop) whatever happens next; then its
    /// registration is dropped, or `ProviderNotInstalled` when there was
    /// none. On success the caller deletes every cached variant.
    pub fn uninstall(&mut self, id: &ProviderId) -> (r: (Option<RunningInstance>, Result<(), RuntimeError>))
        requires
            old(self).wf(),
        ensures
            final(self).wf(),
            final(self).instances() == old(self).instances().remove(id@),
            final(self).selected() == old(self).selected(),
            final(self).operation_log() == old(self).operation_log(),
            final(self).idle_timeout() == old(self).idle_timeout(),
            final(self).spec_hardware() == old(self).spec_hardware(),
            final(self).installed() == old(self).installed().remove(id@),
            match r.0 {
                Some(inst) => old(self).instances().contains_key(id@) && inst@ == old(
                    self,
                ).instances()[id@],
                None => !old(self).instances().contains_key(id@),
            },
            match r.1 {
                Ok(()) => old(self).installed().contains_key(id@),
                Err(RuntimeError::ProviderNotInstalled(m)) => !old(self).installed().contains_key(
                    id@,
                ) && m@ == id@,
                Err(_) => false,
            },
    {
        let stopped = table_remove(&mut self.instances, id.as_str());
        match table_remove(&mut self.installed, id.as_str()) {
            Some(_) => (stopped, Ok(())),
            None => (stopped, Err(RuntimeError::ProviderNotInstalled(id.to_string()))),
        }
    }

    /// Whether `model_id`'s weights are present for `id`, and their size.
    /// `ProviderNotFound`/`ModelNotFound` for ids outside the catalog, `Io`
    /// when probing the weights failed.
    pub fn verify_model(&self, id: &ProviderId, model_id: &str, weights: &FileProbe) -> (r: Result<
        Option<u64>,
        RuntimeError,
    >)
        ensures
            match r {
                Ok(o) => catalog_has(id@) && entry_has_model(catalog_entry(id@), model_id@)
                    && spec_weights_status(*weights) == Ok::<Option<u64>, Seq<char>>(o),
                Err(RuntimeError::ProviderNotFound(m)) => !catalog_has(id@) && m@ == id@,
                Err(RuntimeError::ModelNotFound(m)) => catalog_has(id@) && !entry_has_model(
                    catalog_entry(id@),
                    model_id@,
                ) && m@ == model_id@,
                Err(RuntimeError::Io(m)) => catalog_has(id@) && entry_has_model(
                    catalog_entry(id@),
                    model_id@,
                ) && spec_weights_status(*weights) == Err::<Option<u64>, Seq<char>>(m@),
                Err(_) => false,
            },
    {
        match Self::check_model(id, model_id) {
            Ok(()) => {},
            Err(e) => return Err(e),
        }
        verify_cached_model(weights)
    }

    /// Checks a model removal of `id`'s `model_id` before the caller
    /// deletes its cached weights: `ProviderNotFound`/`ModelNotFound` for
    /// ids outside the catalog.
    pub fn remove_model(&self, id: &ProviderId, model_id: &str) -> (r: Result<(), RuntimeError>)
        ensures
            match r {
                Ok(()) => catalog_has(id@) && entry_has_model(catalog_entry(id@), model_id@),
                Err(RuntimeError::ProviderNotFound(m)) => !catalog_has(id@) && m@ == id@,
                Err(RuntimeError::ModelNotFound(m)) => catalog_has(id@) && !entry_has_model(
                    catalog_entry(id@),
                    model_id@,
                ) && m@ == model_id@,
                Err(_) => false,
            },
    {
        Self::check_model(id, model_id)
    }

    /// A copy of the instance at index `i`.
    fn instance_copy(&self, i: usize) -> (r: RunningInstance)
        requires
            i < self.instances@.len(),
        ensures
            r@ == self.instances@[i as int].1@,
    {
        let e = &self.instances[i].1;
        RunningInstance {
            port: e.port,
            auth_token: e.auth_token.clone(),
            status: e.status,
            last_activity_ms: e.last_activity_ms,
            streaming: copy_streaming(&e.streaming),
        }
    }

    /// Takes out every instance nobody used within the idle timeout before
    /// `now` and returns their ids, for the caller to stop their
    /// processes. With idle auto-stop disabled, nothing happens.
    pub fn sweep_idle(&mut self, now_ms: u64) -> (r: Vec<String>)
        requires
            old(self).wf(),
        ensures
            final(self).wf(),
            final(self).same_except_instances(&*old(self)),
            ids_view(r@).no_duplicates(),
            match old(self).idle_timeout() {
                None => r@.len() == 0 && final(self).instances() == old(self).instances(),
                Some(t) => final(self).instances() == fresh_part(old(self).instances(), now_ms, t)
                    && ids_view(r@).to_set() == idle_ids(old(self).instances(), now_ms, t),
            },
    {
        let timeout = match self.idle_timeout_ms {
            Some(t) => t,
            None => {
                let r: Vec<String> = Vec::new();
                assert(ids_view(r@) =~= Seq::<Seq<char>>::empty());
                return r;
            },
        };
        let ghost s = pairs(self.instances@);
        let mut kept: Vec<(String, RunningInstance)> = Vec::new();
        let mut stopped: Vec<String> = Vec::new();
        let mut i: usize = 0;
        assert(as_map(pairs(kept@)) =~= fresh_part(as_map(s.take(0)), now_ms, timeout));
        assert(ids_view(stopped@).to_set() =~= idle_ids(as_map(s.take(0)), now_ms, timeout));
        while i < self.instances.len()
            invariant
                s == pairs(self.instances@),
                keys_unique(s),
                i <= s.len(),
                keys_unique(pairs(kept@)),
                as_map(pairs(kept@)) == fresh_part(as_map(s.take(i as int)), now_ms, timeout),
                ids_view(stopped@).to_set() == idle_ids(as_map(s.take(i as int)), now_ms, timeout),
                ids_view(stopped@).no_duplicates(),
            decreases self.instances.len() - i,
        {
            let ghost m = as_map(s.take(i as int));
            let ghost k = s[i as int].0;
            let ghost v = s[i as int].1;
            proof {
                lemma_keys_unique_take(s, i as int);
                if crate::assoc::has_key(s.take(i as int), k) {
                    let j = choose|j: int|
                        0 <= j < s.take(i as int).len() && (#[trigger] s.take(i as int)[j]).0 == k;
                    assert(s[j].0 == k);
                }
                crate::assoc::lemma_as_map_push(s.take(i as int), k, v);
                assert(s.take(i + 1) =~= s.take(i as int).push((k, v)));
                assert(!m.contains_key(k));
            }
            let inst = self.instance_copy(i);
            let key = self.instances[i].0.clone();
            let last = inst.last_activity_ms;
            let elapsed: u64 = if now_ms >= last {
                now_ms - last
            } else {
                0
            };
            if elapsed >= timeout {
                proof {
                    assert(!ids_view(stopped@).contains(k)) by {
                        if ids_view(stopped@).contains(k) {
                            assert(ids_view(stopped@).to_set().contains(k));
                        }
                    }
                    ids_view(stopped@).lemma_push_to_set_commute(k);
                }
                let ghost before = stopped@;
                stopped.push(key);
                assert(ids_view(stopped@) =~= ids_view(before).push(k));
                assert(idle_ids(m.insert(k, v), now_ms, timeout) =~= idle_ids(m, now_ms, timeout).insert(k));
                assert(fresh_part(m.insert(k, v), now_ms, timeout) =~= fresh_part(m, now_ms, timeout));
            } else {
                proof {
                    if crate::assoc::has_key(pairs(kept@), k) {
                        let j = choose|j: int|
                            0 <= j < pairs(kept@).len() && (#[trigger] pairs(kept@)[j]).0 == k;
                        lemma_as_map_at(pairs(kept@), j);
                    }
                    crate::assoc::lemma_as_map_push(pairs(kept@), k, v);
                }
                let ghost before = kept@;
                kept.push((key, inst));
                assert(pairs(kept@) =~= pairs(before).push((k, v)));
                assert(idle_ids(m.insert(k, v), now_ms, timeout) =~= idle_ids(m, now_ms, timeout));
                assert(fresh_part(m.insert(k, v), now_ms, timeout) =~= fresh_part(m, now_ms, timeout).insert(k, v));
            }
            i += 1;
        }
        assert(s.take(s.len() as int) =~= s);
        self.instances = kept;
        stopped
    }
}

// ── Laws ────────────────────────────────────────────────────────────

/// Making room in the operation table never drops an in-flight download
/// and keeps the newest finished ones: afterwards at most
/// [`MAX_FINISHED_INSTALL_OPERATIONS`] operations have finished (all of
/// them, when there were no more), every `Downloading` operation is still
/// there, and so is every finished one with at most that many finished
/// operations after it.
#[verifier::rlimit(60)]
#[verifier::spinoff_prover]
pub proof fn law_eviction_keeps_in_flight_downloads(log: Seq<(Seq<char>, OperationView)>)
    ensures
        evicted(log).len() <= log.len(),
        finished_count(evicted(log)) == if finished_count(log) > MAX_FINISHED_INSTALL_OPERATIONS {
            MAX_FINISHED_INSTALL_OPERATIONS as nat
        } else {
            finished_count(log)
        },
        forall|i: int|
            0 <= i < log.len() && !is_finished(#[trigger] log[i].1) ==> evicted(log).contains(log[i]),
        forall|i: int|
            0 <= i < log.len() && is_finished(#[trigger] log[i].1) && finished_count(log.take(i))
                + MAX_FINISHED_INSTALL_OPERATIONS >= finished_count(log) ==> evicted(log).contains(
                log[i],
            ),
    decreases log.len(),
{
    let k = first_finished(log);
    if finished_count(log) > MAX_FINISHED_INSTALL_OPERATIONS {
        lemma_finished_count_positive(log);
        let w = choose|i: int| 0 <= i < log.len() && is_finished(#[trigger] log[i].1);
        lemma_first_finished_valid(log, w);
        let t = log.remove(k);
        lemma_finished_count_remove(log, k);
        law_eviction_keeps_in_flight_downloads(t);
        assert(evicted(log) == evicted(t));
        assert forall|i: int|
            0 <= i < log.len() && !is_finished(#[trigger] log[i].1) implies evicted(log).contains(
            log[i],
        ) by {
            if i < k {
                assert(t[i] == log[i]);
                assert(!is_finished(t[i].1));
            } else {
                assert(i != k);
                assert(t[i - 1] == log[i]);
                assert(!is_finished(t[i - 1].1));
            }
        }
        assert forall|i: int|
            0 <= i < log.len() && is_finished(#[trigger] log[i].1) && finished_count(log.take(i))
                + MAX_FINISHED_INSTALL_OPERATIONS >= finished_count(log) implies evicted(
            log,
        ).contains(log[i]) by {
            if i <= k {
                assert forall|j: int| 0 <= j < log.take(i).len() implies !is_finished(
                    #[trigger] log.take(i)[j].1,
                ) by {
                    assert(log.take(i)[j] == log[j]);
                }
                lemma_finished_count_zero(log.take(i));
                assert(false);
            } else {
                assert(t[i - 1] == log[i]);
                assert(t.take(i - 1) =~= log.take(i).remove(k));
                assert(log.take(i)[k] == log[k]);
                lemma_finished_count_remove(log.take(i), k);
                assert(is_finished(t[i - 1].1));
            }
        }
    }
}

proof fn lemma_first_finished_valid(log: Seq<(Seq<char>, OperationView)>, w: int)
    requires
        0 <= w < log.len(),
        is_finished(log[w].1),
    ensures
        0 <= first_finished(log) < log.len(),
        is_finished(log[first_finished(log)].1),
        forall|j: int| 0 <= j < first_finished(log) ==> !is_finished(#[trigger] log[j].1),
{
    lemma_exists_first_finished(log, w);
}

proof fn lemma_exists_first_finished(log: Seq<(Seq<char>, OperationView)>, w: int)
    requires
        0 <= w < log.len(),
        is_finished(log[w].1),
    ensures
        exists|j: int|
            0 <= j < log.len() && is_finished(#[trigger] log[j].1) && forall|a: int|
                0 <= a < j ==> !is_finished(#[trigger] log[a].1),
    decreases w,
{
    if exists|a: int| 0 <= a < w && is_finished(#[trigger] log[a].1) {
        let a = choose|a: int| 0 <= a < w && is_finished(#[trigger] log[a].1);
        lemma_exists_first_finished(log, a);
    } else {
        assert(forall|a: int| 0 <= a < w ==> !is_finished(#[trigger] log[a].1));
    }
}

/// An instance used at `touched_at` survives a sweep at `swept_at` within
/// the idle timeout, unchanged: touching resets the idle clock.
pub proof fn law_touch_resets_the_idle_clock(
    before: Map<Seq<char>, InstanceView>,
    id: Seq<char>,
    touched_at: u64,
    swept_at: u64,
    timeout_ms: u64,
)
    requires
        before.contains_key(id),
        touched_at <= swept_at,
        swept_at - touched_at < timeout_ms,
    ensures
        ({
            let after_touch = before.insert(id, touched(before[id], touched_at));
            &&& fresh_part(after_touch, swept_at, timeout_ms).contains_key(id)
            &&& fresh_part(after_touch, swept_at, timeout_ms)[id] == after_touch[id]
            &&& !idle_ids(after_touch, swept_at, timeout_ms).contains(id)
        }),
{
}

/// An instance nobody used for at least the idle timeout is taken out by
/// the sweep and reported; an instance used more recently stays.
pub proof fn law_sweep_stops_exactly_the_idle(
    instances: Map<Seq<char>, InstanceView>,
    id: Seq<char>,
    now_ms: u64,
    timeout_ms: u64,
)
    requires
        instances.contains_key(id),
    ensures
        is_idle(instances[id], now_ms, timeout_ms) ==> !fresh_part(instances, now_ms, timeout_ms).contains_key(id)
            && idle_ids(instances, now_ms, timeout_ms).contains(id),
        !is_idle(instances[id], now_ms, timeout_ms) ==> fresh_part(instances, now_ms, timeout_ms).contains_key(id)
            && !idle_ids(instances, now_ms, timeout_ms).contains(id),
        fresh_part(instances, now_ms, timeout_ms).dom().subset_of(instances.dom()),
{
}

/// A freshly created manager has no instance, so every provider's status
/// is `Stopped` and stopping any provider is refused (`RuntimeNotRunning`,
/// which [`RuntimeManager::stop`] answers exactly when no instance is
/// recorded).
pub proof fn law_nothing_runs_before_a_start(m: RuntimeManager, id: Seq<char>)
    requires
        m.instances() == Map::<Seq<char>, InstanceView>::empty(),
    ensures
        !m.instances().contains_key(id),
        status_of(m.instances(), id) == RuntimeStatus::Stopped,
{
}

/// Stopping then asking: once an instance is taken out of the table its
/// status reads `Stopped`, and a second stop is refused.
pub proof fn law_stopped_reads_stopped(instances: Map<Seq<char>, InstanceView>, id: Seq<char>)
    ensures
        !instances.remove(id).contains_key(id),
        status_of(instances.remove(id), id) == RuntimeStatus::Stopped,
{
}

/// Progress recorded for a tracked download is what a poll of it reads
/// back, with nothing else about it and no other operation changed;
/// finishing it is read back as complete, or as failed with the message.
pub proof fn law_poll_reads_back_recorded_progress(
    before: RuntimeManager,
    op: Seq<char>,
    downloaded: u64,
    total: Option<u64>,
    outcome: Result<(), Seq<char>>,
)
    requires
        before.wf(),
        before.operations().contains_key(op),
    ensures
        ({
            let log = before.operation_log();
            let i = crate::assoc::key_index(log, op);
            let progressed = log.update(i, (op, with_progress(log[i].1, downloaded, total)));
            let finished = progressed.update(i, (op, finished_with(progressed[i].1, outcome)));
            &&& as_map(progressed) == before.operations().insert(
                op,
                with_progress(before.operations()[op], downloaded, total),
            )
            &&& as_map(progressed)[op].downloaded_bytes == downloaded
            &&& as_map(progressed)[op].total_bytes == total
            &&& as_map(finished)[op].downloaded_bytes == downloaded
            &&& as_map(finished)[op].status == (match outcome {
                Ok(_) => InstallOperationStatus::Complete,
                Err(_) => InstallOperationStatus::Failed,
            })
            &&& (outcome matches Err(e) ==> as_map(finished)[op].error == Some(e))
        }),
{
    let log = before.operation_log();
    let i = crate::assoc::key_index(log, op);
    assert(crate::assoc::has_key(log, op));
    assert(0 <= i < log.len() && log[i].0 == op);
    lemma_as_map_at(log, i);
    let progressed = log.update(i, (op, with_progress(log[i].1, downloaded, total)));
    lemma_as_map_update(log, i, with_progress(log[i].1, downloaded, total));
    let finished = progressed.update(i, (op, finished_with(progressed[i].1, outcome)));
    lemma_as_map_update(progressed, i, finished_with(progressed[i].1, outcome));
}

/// After an instance was recorded as started on `port`, it is running on
/// that port, so the next start reuses it (no second spawn) and describes
/// it at `http://127.0.0.1:<port>`; a descriptor always points at
/// loopback whatever host the runtime binds.
pub proof fn law_started_instance_is_reused(
    before: Map<Seq<char>, InstanceView>,
    id: Seq<char>,
    port: u16,
    token: Seq<char>,
    streaming: Option<StreamingCapabilityView>,
    now_ms: u64,
    d: RuntimeConnectionDescriptor,
)
    requires
        catalog_has(id),
        descriptor_is(d, catalog_entry(id), port, token, streaming),
    ensures
        ({
            let after = before.insert(
                id,
                InstanceView {
                    port,
                    auth_token: token,
                    status: RuntimeStatus::Running,
                    last_activity_ms: now_ms,
                    streaming,
                },
            );
            &&& after.contains_key(id)
            &&& after[id].status == RuntimeStatus::Running
            &&& after[id].port == port
            &&& d.base_url@ == loopback_base_url(port)
        }),
{
}

/// Registering then asking: a registered provider is installed, with the
/// registered variant and builder; uninstalling removes it.
pub proof fn law_register_then_installed(
    installed: Map<Seq<char>, InstalledView>,
    id: Seq<char>,
    entry: InstalledView,
)
    ensures
        installed.insert(id, entry).contains_key(id),
        installed.insert(id, entry)[id] == entry,
        !installed.insert(id, entry).remove(id).contains_key(id),
{
}

/// Selecting then asking: the selected model is the one reported, until
/// another selection replaces it.
pub proof fn law_select_then_selected(
    selected: Map<Seq<char>, Seq<char>>,
    id: Seq<char>,
    first: Seq<char>,
    second: Seq<char>,
)
    ensures
        opt_get(selected.insert(id, first), id) == Some(first),
        opt_get(selected.insert(id, first).insert(id, second), id) == Some(second),
{
}

/// Binding a managed runtime off loopback takes an auth token: a start
/// asking for a non-loopback host with no token, or a blank one, is always
/// refused; on loopback no token is asked for.
pub proof fn law_remote_bind_requires_a_token(
    id: Seq<char>,
    options: StartOptions,
    installed: Option<InstalledView>,
)
    ensures
        !spec_is_loopback_host(bind_host_of(options)) && (match options.auth_token {
            Some(t) => trimmed(t@).len() == 0,
            None => true,
        }) ==> start_rejection(id, options, installed) is Some,
        spec_is_loopback_host(bind_host_of(options)) && !(options.device matches Some(d) && d@
            == "cuda"@) ==> start_rejection(id, options, installed) is None,
{
}

/// A well-formed manager never files two operations under one id.
pub proof fn lemma_wf_operation_ids_unique(m: RuntimeManager)
    requires
        m.wf(),
    ensures
        keys_unique(m.operation_log()),
{
}

/// A download just tracked is what a poll of its id reads back: once an
/// operation `v` was filed under `k` (as [`RuntimeManager::begin_install`]
/// and [`RuntimeManager::begin_model_pull`] file a fresh one), the
/// manager's operations hold `v` at `k`.
pub proof fn law_tracked_download_reads_back(
    after: RuntimeManager,
    before: Seq<(Seq<char>, OperationView)>,
    k: Seq<char>,
    v: OperationView,
)
    requires
        after.wf(),
        after.operation_log() == crate::assoc::upsert(before, k, v),
    ensures
        after.operations().contains_key(k),
        after.operations()[k] == v,
{
    crate::assoc::lemma_upsert_reads_back(before, k, v);
}

/// Recording progress changes only an operation's byte counts: its
/// status, ids, variant or model and error are as before. In particular an
/// in-flight download stays in flight (and a repeated install or pull
/// request still finds it) until it is finished explicitly, however many
/// bytes were counted.
pub proof fn law_progress_changes_only_the_byte_counts(
    o: OperationView,
    downloaded: u64,
    total: Option<u64>,
    provider_id: Seq<char>,
    key: Seq<char>,
)
    ensures
        with_progress(o, downloaded, total).downloaded_bytes == downloaded,
        with_progress(o, downloaded, total).total_bytes == total,
        with_progress(o, downloaded, total).status == o.status,
        with_progress(o, downloaded, total).operation_id == o.operation_id,
        with_progress(o, downloaded, total).provider_id == o.provider_id,
        with_progress(o, downloaded, total).variant == o.variant,
        with_progress(o, downloaded, total).model_id == o.model_id,
        with_progress(o, downloaded, total).error == o.error,
        is_variant_download(with_progress(o, downloaded, total), provider_id, key)
            == is_variant_download(o, provider_id, key),
        is_model_download(with_progress(o, downloaded, total), provider_id, key)
            == is_model_download(o, provider_id, key),
{
}

} // verus!
