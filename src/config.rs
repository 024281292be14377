use vstd::prelude::*;

verus! {

/// Overrides from the command line for the general settings. A field left
/// at `None` keeps the value that the settings file gave.
#[derive(Clone, Debug, PartialEq, Eq)]
pub struct BaseCliArgs {
    pub log_json: Option<bool>,
    pub log_level: Option<String>,
    pub full_telemetry_server_port: Option<u16>,
    pub full_telemetry_server_ip: Option<String>,
    pub redacted_telemetry_server_port: Option<u16>,
    pub redacted_telemetry_server_ip: Option<String>,
    pub log_color: Option<bool>,
    pub log_enable_dynamic: Option<bool>,
    pub error_storage_path: Option<String>,
    pub coinbase_secret_key: Option<String>,
    pub flashbots_db: Option<String>,
    pub jsonrpc_server_port: Option<u16>,
    pub jsonrpc_server_ip: Option<String>,
    pub ignore_cancellable_orders: Option<bool>,
    pub ignore_blobs: Option<bool>,
    pub chain: Option<String>,
    pub reth_datadir: Option<String>,
}

/// Overrides from the command line for the settings of block submission
/// on the consensus layer.
#[derive(Clone, Debug, PartialEq, Eq)]
pub struct L1CliArgs {
    pub dry_run: Option<bool>,
    pub dry_run_validation_url: Option<Vec<String>>,
    pub optimistic_enabled: Option<bool>,
    pub optimistic_max_bid_value_eth: Option<String>,
    pub optimistic_prevalidate_optimistic_blocks: Option<bool>,
    pub max_concurrent_seals: Option<u64>,
    pub cl_node_url: Option<Vec<String>>,
    pub genesis_fork_version: Option<String>,
}

/// The resolved settings of the builder.
#[derive(Clone, Debug, PartialEq, Eq)]
pub struct BaseConfig {
    pub log_json: bool,
    pub log_level: String,
    pub full_telemetry_server_port: u16,
    pub full_telemetry_server_ip: String,
    pub redacted_telemetry_server_port: u16,
    pub redacted_telemetry_server_ip: String,
    pub log_color: bool,
    pub log_enable_dynamic: bool,
    pub error_storage_path: Option<String>,
    pub coinbase_secret_key: Option<String>,
    pub flashbots_db: Option<String>,
    pub jsonrpc_server_port: u16,
    pub jsonrpc_server_ip: String,
    pub ignore_cancellable_orders: bool,
    pub ignore_blobs: bool,
    pub chain: String,
    pub reth_datadir: Option<String>,
    pub dry_run: bool,
    pub dry_run_validation_url: Vec<String>,
    pub optimistic_enabled: bool,
    pub optimistic_max_bid_value_eth: String,
    pub optimistic_prevalidate_optimistic_blocks: bool,
    pub max_concurrent_seals: u64,
    pub cl_node_url: Vec<String>,
    pub genesis_fork_version: Option<String>,
}

/// The value that an override leaves: its own if it has one, else the base.
pub open spec fn overlay<T>(base: T, delta: Option<T>) -> T {
    match delta {
        Some(v) => v,
        None => base,
    }
}

/// Like `overlay`, for a setting that may itself be absent.
pub open spec fn overlay_opt<T>(base: Option<T>, delta: Option<T>) -> Option<T> {
    match delta {
        Some(v) => Some(v),
        None => base,
    }
}

/// A list setting after an override: the override's items if it has a
/// list, else the very same list as before.
pub open spec fn list_overlaid(before: Vec<String>, after: Vec<String>, delta: Option<Vec<String>>) -> bool {
    match delta {
        Some(v) => after@ == v@,
        None => after == before,
    }
}

impl BaseCliArgs {
    /// Whether no general setting is overridden.
    pub open spec fn is_empty(&self) -> bool {
        &&& self.log_json is None
        &&& self.log_level is None
        &&& self.full_telemetry_server_port is None
        &&& self.full_telemetry_server_ip is None
        &&& self.redacted_telemetry_server_port is None
        &&& self.redacted_telemetry_server_ip is None
        &&& self.log_color is None
        &&& self.log_enable_dynamic is None
        &&& self.error_storage_path is None
        &&& self.coinbase_secret_key is None
        &&& self.flashbots_db is None
        &&& self.jsonrpc_server_port is None
        &&& self.jsonrpc_server_ip is None
        &&& self.ignore_cancellable_orders is None
        &&& self.ignore_blobs is None
        &&& self.chain is None
        &&& self.reth_datadir is None
    }

    /// The overrides of `self`, with those of `later` taking their place
    /// wherever `later` has one.
    pub open spec fn followed_by(self, later: BaseCliArgs) -> BaseCliArgs {
        BaseCliArgs {
            log_json: overlay_opt(self.log_json, later.log_json),
            log_level: overlay_opt(self.log_level, later.log_level),
            full_telemetry_server_port: overlay_opt(self.full_telemetry_server_port, later.full_telemetry_server_port),
            full_telemetry_server_ip: overlay_opt(self.full_telemetry_server_ip, later.full_telemetry_server_ip),
            redacted_telemetry_server_port: overlay_opt(self.redacted_telemetry_server_port, later.redacted_telemetry_server_port),
            redacted_telemetry_server_ip: overlay_opt(self.redacted_telemetry_server_ip, later.redacted_telemetry_server_ip),
            log_color: overlay_opt(self.log_color, later.log_color),
            log_enable_dynamic: overlay_opt(self.log_enable_dynamic, later.log_enable_dynamic),
            error_storage_path: overlay_opt(self.error_storage_path, later.error_storage_path),
            coinbase_secret_key: overlay_opt(self.coinbase_secret_key, later.coinbase_secret_key),
            flashbots_db: overlay_opt(self.flashbots_db, later.flashbots_db),
            jsonrpc_server_port: overlay_opt(self.jsonrpc_server_port, later.jsonrpc_server_port),
            jsonrpc_server_ip: overlay_opt(self.jsonrpc_server_ip, later.jsonrpc_server_ip),
            ignore_cancellable_orders: overlay_opt(self.ignore_cancellable_orders, later.ignore_cancellable_orders),
            ignore_blobs: overlay_opt(self.ignore_blobs, later.ignore_blobs),
            chain: overlay_opt(self.chain, later.chain),
            reth_datadir: overlay_opt(self.reth_datadir, later.reth_datadir),
        }
    }
}

impl Default for BaseCliArgs {
    fn default() -> (r: BaseCliArgs)
        ensures
            r.is_empty(),
    {
        BaseCliArgs {
            log_json: None,
            log_level: None,
            full_telemetry_server_port: None,
            full_telemetry_server_ip: None,
            redacted_telemetry_server_port: None,
            redacted_telemetry_server_ip: None,
            log_color: None,
            log_enable_dynamic: None,
            error_storage_path: None,
            coinbase_secret_key: None,
            flashbots_db: None,
            jsonrpc_server_port: None,
            jsonrpc_server_ip: None,
            ignore_cancellable_orders: None,
            ignore_blobs: None,
            chain: None,
            reth_datadir: None,
        }
    }
}

impl L1CliArgs {
    /// Whether no submission setting is overridden.
    pub open spec fn is_empty(&self) -> bool {
        &&& self.dry_run is None
        &&& self.dry_run_validation_url is None
        &&& self.optimistic_enabled is None
        &&& self.optimistic_max_bid_value_eth is None
        &&& self.optimistic_prevalidate_optimistic_blocks is None
        &&& self.max_concurrent_seals is None
        &&& self.cl_node_url is None
        &&& self.genesis_fork_version is None
    }

    /// The overrides of `self`, with those of `later` taking their place
    /// wherever `later` has one.
    pub open spec fn followed_by(self, later: L1CliArgs) -> L1CliArgs {
        L1CliArgs {
            dry_run: overlay_opt(self.dry_run, later.dry_run),
            dry_run_validation_url: overlay_opt(self.dry_run_validation_url, later.dry_run_validation_url),
            optimistic_enabled: overlay_opt(self.optimistic_enabled, later.optimistic_enabled),
            optimistic_max_bid_value_eth: overlay_opt(self.optimistic_max_bid_value_eth, later.optimistic_max_bid_value_eth),
            optimistic_prevalidate_optimistic_blocks: overlay_opt(
                self.optimistic_prevalidate_optimistic_blocks,
                later.optimistic_prevalidate_optimistic_blocks,
            ),
            max_concurrent_seals: overlay_opt(self.max_concurrent_seals, later.max_concurrent_seals),
            cl_node_url: overlay_opt(self.cl_node_url, later.cl_node_url),
            genesis_fork_version: overlay_opt(self.genesis_fork_version, later.genesis_fork_version),
        }
    }
}

impl Default for L1CliArgs {
    fn default() -> (r: L1CliArgs)
        ensures
            r.is_empty(),
    {
        L1CliArgs {
            dry_run: None,
            dry_run_validation_url: None,
            optimistic_enabled: None,
            optimistic_max_bid_value_eth: None,
            optimistic_prevalidate_optimistic_blocks: None,
            max_concurrent_seals: None,
            cl_node_url: None,
            genesis_fork_version: None,
        }
    }
}

/// The general settings of `after` are those of `before` under the
/// overrides `d`.
pub open spec fn base_overlaid(before: BaseConfig, after: BaseConfig, d: BaseCliArgs) -> bool {
    &&& after.log_json == overlay(before.log_json, d.log_json)
    &&& after.log_level == overlay(before.log_level, d.log_level)
    &&& after.full_telemetry_server_port == overlay(before.full_telemetry_server_port, d.full_telemetry_server_port)
    &&& after.full_telemetry_server_ip == overlay(before.full_telemetry_server_ip, d.full_telemetry_server_ip)
    &&& after.redacted_telemetry_server_port == overlay(before.redacted_telemetry_server_port, d.redacted_telemetry_server_port)
    &&& after.redacted_telemetry_server_ip == overlay(before.redacted_telemetry_server_ip, d.redacted_telemetry_server_ip)
    &&& after.log_color == overlay(before.log_color, d.log_color)
    &&& after.log_enable_dynamic == overlay(before.log_enable_dynamic, d.log_enable_dynamic)
    &&& after.error_storage_path == overlay_opt(before.error_storage_path, d.error_storage_path)
    &&& after.coinbase_secret_key == overlay_opt(before.coinbase_secret_key, d.coinbase_secret_key)
    &&& after.flashbots_db == overlay_opt(before.flashbots_db, d.flashbots_db)
    &&& after.jsonrpc_server_port == overlay(before.jsonrpc_server_port, d.jsonrpc_server_port)
    &&& after.jsonrpc_server_ip == overlay(before.jsonrpc_server_ip, d.jsonrpc_server_ip)
    &&& after.ignore_cancellable_orders == overlay(before.ignore_cancellable_orders, d.ignore_cancellable_orders)
    &&& after.ignore_blobs == overlay(before.ignore_blobs, d.ignore_blobs)
    &&& after.chain == overlay(before.chain, d.chain)
    &&& after.reth_datadir == overlay_opt(before.reth_datadir, d.reth_datadir)
}

/// The general settings of `after` are those of `before`.
pub open spec fn base_kept(before: BaseConfig, after: BaseConfig) -> bool {
    &&& after.log_json == before.log_json
    &&& after.log_level == before.log_level
    &&& after.full_telemetry_server_port == before.full_telemetry_server_port
    &&& after.full_telemetry_server_ip == before.full_telemetry_server_ip
    &&& after.redacted_telemetry_server_port == before.redacted_telemetry_server_port
    &&& after.redacted_telemetry_server_ip == before.redacted_telemetry_server_ip
    &&& after.log_color == before.log_color
    &&& after.log_enable_dynamic == before.log_enable_dynamic
    &&& after.error_storage_path == before.error_storage_path
    &&& after.coinbase_secret_key == before.coinbase_secret_key
    &&& after.flashbots_db == before.flashbots_db
    &&& after.jsonrpc_server_port == before.jsonrpc_server_port
    &&& after.jsonrpc_server_ip == before.jsonrpc_server_ip
    &&& after.ignore_cancellable_orders == before.ignore_cancellable_orders
    &&& after.ignore_blobs == before.ignore_blobs
    &&& after.chain == before.chain
    &&& after.reth_datadir == before.reth_datadir
}

/// The submission settings of `after` are those of `before` under the
/// overrides `d`.
pub open spec fn l1_overlaid(before: BaseConfig, after: BaseConfig, d: L1CliArgs) -> bool {
    &&& after.dry_run == overlay(before.dry_run, d.dry_run)
    &&& list_overlaid(before.dry_run_validation_url, after.dry_run_validation_url, d.dry_run_validation_url)
    &&& after.optimistic_enabled == overlay(before.optimistic_enabled, d.optimistic_enabled)
    &&& after.optimistic_max_bid_value_eth == overlay(before.optimistic_max_bid_value_eth, d.optimistic_max_bid_value_eth)
    &&& after.optimistic_prevalidate_optimistic_blocks == overlay(
        before.optimistic_prevalidate_optimistic_blocks,
        d.optimistic_prevalidate_optimistic_blocks,
    )
    &&& after.max_concurrent_seals == overlay(before.max_concurrent_seals, d.max_concurrent_seals)
    &&& list_overlaid(before.cl_node_url, after.cl_node_url, d.cl_node_url)
    &&& after.genesis_fork_version == overlay_opt(before.genesis_fork_version, d.genesis_fork_version)
}

/// The submission settings of `after` are those of `before`.
pub open spec fn l1_kept(before: BaseConfig, after: BaseConfig) -> bool {
    &&& after.dry_run == before.dry_run
    &&& after.dry_run_validation_url == before.dry_run_validation_url
    &&& after.optimistic_enabled == before.optimistic_enabled
    &&& after.optimistic_max_bid_value_eth == before.optimistic_max_bid_value_eth
    &&& after.optimistic_prevalidate_optimistic_blocks == before.optimistic_prevalidate_optimistic_blocks
    &&& after.max_concurrent_seals == before.max_concurrent_seals
    &&& after.cl_node_url == before.cl_node_url
    &&& after.genesis_fork_version == before.genesis_fork_version
}

fn copy_text(s: &Option<String>) -> (r: Option<String>)
    ensures
        r == *s,
{
    match s {
        Some(v) => Some(v.clone()),
        None => None,
    }
}

fn copy_list(v: &Vec<String>) -> (r: Vec<String>)
    ensures
        r@ == v@,
{
    let mut r: Vec<String> = Vec::new();
    let mut i: usize = 0;
    while i < v.len()
        invariant
            i <= v@.len(),
            r@ == v@.subrange(0, i as int),
        decreases v@.len() - i,
    {
        r.push(v[i].clone());
        i = i + 1;
    }
    assert(r@ =~= v@);
    r
}

fn set_flag(slot: &mut bool, d: Option<bool>)
    ensures
        *final(slot) == overlay(*old(slot), d),
{
    if let Some(v) = d {
        *slot = v;
    }
}

fn set_port(slot: &mut u16, d: Option<u16>)
    ensures
        *final(slot) == overlay(*old(slot), d),
{
    if let Some(v) = d {
        *slot = v;
    }
}

fn set_count(slot: &mut u64, d: Option<u64>)
    ensures
        *final(slot) == overlay(*old(slot), d),
{
    if let Some(v) = d {
        *slot = v;
    }
}

fn set_text(slot: &mut String, d: &Option<String>)
    ensures
        *final(slot) == overlay(*old(slot), *d),
{
    if let Some(v) = d {
        *slot = v.clone();
    }
}

fn set_opt_text(slot: &mut Option<String>, d: &Option<String>)
    ensures
        *final(slot) == overlay_opt(*old(slot), *d),
{
    if d.is_some() {
        *slot = copy_text(d);
    }
}

fn set_list(slot: &mut Vec<String>, d: &Option<Vec<String>>)
    ensures
        list_overlaid(*old(slot), *final(slot), *d),
{
    if let Some(v) = d {
        *slot = copy_list(v);
    }
}

impl BaseConfig {
    /// Applies the general overrides: each one that holds a value replaces
    /// the setting, the others leave it as it was.
    pub fn merge_base(&mut self, d: &BaseCliArgs)
        ensures
            base_overlaid(*old(self), *final(self), *d),
            l1_kept(*old(self), *final(self)),
            d.is_empty() ==> *final(self) == *old(self),
    {
        set_flag(&mut self.log_json, d.log_json);
        set_text(&mut self.log_level, &d.log_level);
        set_port(&mut self.full_telemetry_server_port, d.full_telemetry_server_port);
        set_text(&mut self.full_telemetry_server_ip, &d.full_telemetry_server_ip);
        set_port(&mut self.redacted_telemetry_server_port, d.redacted_telemetry_server_port);
        set_text(&mut self.redacted_telemetry_server_ip, &d.redacted_telemetry_server_ip);
        set_flag(&mut self.log_color, d.log_color);
        set_flag(&mut self.log_enable_dynamic, d.log_enable_dynamic);
        set_opt_text(&mut self.error_storage_path, &d.error_storage_path);
        set_opt_text(&mut self.coinbase_secret_key, &d.coinbase_secret_key);
        set_opt_text(&mut self.flashbots_db, &d.flashbots_db);
        set_port(&mut self.jsonrpc_server_port, d.jsonrpc_server_port);
        set_text(&mut self.jsonrpc_server_ip, &d.jsonrpc_server_ip);
        set_flag(&mut self.ignore_cancellable_orders, d.ignore_cancellable_orders);
        set_flag(&mut self.ignore_blobs, d.ignore_blobs);
        set_text(&mut self.chain, &d.chain);
        set_opt_text(&mut self.reth_datadir, &d.reth_datadir);
    }

    /// Applies the submission overrides: each one that holds a value
    /// replaces the setting, the others leave it as it was.
    pub fn merge_l1(&mut self, d: &L1CliArgs)
        ensures
            l1_overlaid(*old(self), *final(self), *d),
            base_kept(*old(self), *final(self)),
            d.is_empty() ==> *final(self) == *old(self),
    {
        set_flag(&mut self.dry_run, d.dry_run);
        set_list(&mut self.dry_run_validation_url, &d.dry_run_validation_url);
        set_flag(&mut self.optimistic_enabled, d.optimistic_enabled);
        set_text(&mut self.optimistic_max_bid_value_eth, &d.optimistic_max_bid_value_eth);
        set_flag(&mut self.optimistic_prevalidate_optimistic_blocks, d.optimistic_prevalidate_optimistic_blocks);
        set_count(&mut self.max_concurrent_seals, d.max_concurrent_seals);
        set_list(&mut self.cl_node_url, &d.cl_node_url);
        set_opt_text(&mut self.genesis_fork_version, &d.genesis_fork_version);
    }

    /// Applies the general overrides, then the submission overrides.
    pub fn apply_overrides(&mut self, base: &BaseCliArgs, l1: &L1CliArgs)
        ensures
            base_overlaid(*old(self), *final(self), *base),
            l1_overlaid(*old(self), *final(self), *l1),
    {
        self.merge_base(base);
        self.merge_l1(l1);
    }
}

/// Two general overrides merged one after the other act as one override in
/// which the later one's values take the place of the earlier one's: where
/// both set a field, the later value is the one that stays.
pub proof fn lemma_later_base_override_wins(
    b: BaseConfig,
    m: BaseConfig,
    r: BaseConfig,
    d1: BaseCliArgs,
    d2: BaseCliArgs,
)
    requires
        base_overlaid(b, m, d1),
        base_overlaid(m, r, d2),
    ensures
        base_overlaid(b, r, d1.followed_by(d2)),
{
}

/// Two submission overrides merged one after the other act as one override
/// in which the later one's values take the place of the earlier one's:
/// where both set a field, the later value is the one that stays.
pub proof fn lemma_later_l1_override_wins(
    b: BaseConfig,
    m: BaseConfig,
    r: BaseConfig,
    d1: L1CliArgs,
    d2: L1CliArgs,
)
    requires
        l1_overlaid(b, m, d1),
        l1_overlaid(m, r, d2),
    ensures
        l1_overlaid(b, r, d1.followed_by(d2)),
{
}

} // verus!
