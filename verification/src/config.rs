//! The configuration a caller hands to the node, and the settings the daemon is
//! started with.

use vstd::prelude::*;
use crate::hashes::{
    is_hash_hex, hash_bytes_in_order, hash_bytes_reversed, parse_block_hash, parse_node_hash,
};

verus! {

/// Default data directory when the caller does not supply one.
///
/// The on-disk layout here is chosen to match the Android app's per-package
/// data directory on the installed device.
pub const DEFAULT_DATA_DIR: &'static str = "/data/data/com.github.jvsena42.mandacaru/files";

/// The Bitcoin network to run on.
#[derive(Debug, Clone, Copy, PartialEq, Eq, Structural)]
pub enum Network {
    /// Bitcoin mainnet.
    Bitcoin,
    /// Bitcoin signet.
    Signet,
    /// Bitcoin testnet.
    Testnet,
    /// Bitcoin regtest.
    Regtest,
    /// Bitcoin testnet4.
    Testnet4,
}

/// Configures the assume-valid behavior for script validation.
#[derive(Debug, Clone, PartialEq, Eq)]
pub enum AssumeValidArg {
    /// Validate all scripts from genesis.
    Disabled,
    /// Use Floresta's hard-coded block hash.
    Hardcoded,
    /// Use a user-provided block hash (64-character hex string).
    UserInput { block_hash: String },
}

/// A pre-computed Utreexo accumulator state.
#[derive(Debug, Clone, PartialEq, Eq)]
pub struct AssumeUtreexoValue {
    /// The block hash at which this accumulator state is valid.
    pub block_hash: String,
    /// The block height at which this accumulator state is valid.
    pub height: u32,
    /// The Utreexo accumulator roots at this block, as hex strings.
    pub roots: Vec<String>,
    /// The number of leaves in the Utreexo accumulator at this block.
    pub leaves: u64,
}

/// Configuration for the Floresta daemon.
#[derive(Debug, Clone, PartialEq, Eq)]
pub struct Config {
    /// Path to the data directory. Must be readable and writable.
    pub datadir: String,
    /// The Bitcoin network to run on.
    pub network: Network,
    /// Disable DNS seed nodes for peer discovery.
    pub disable_dns_seeds: bool,
    /// Which blocks are assumed to have valid scripts.
    pub assume_valid: AssumeValidArg,
    /// SLIP-132-encoded extended public keys to watch.
    pub wallet_xpub: Option<Vec<String>>,
    /// Output descriptors to watch.
    pub wallet_descriptor: Option<Vec<String>>,
    /// Path to a TOML configuration file.
    pub config_file: Option<String>,
    /// SOCKS5 proxy for outgoing connections.
    pub proxy: Option<String>,
    /// Whether to build compact block filters.
    pub cfilters: bool,
    /// Block height to start downloading compact filters from.
    pub filters_start_height: Option<i32>,
    /// ZMQ server address (requires zmq-server feature).
    pub zmq_address: Option<String>,
    /// Nodes to connect to exclusively.
    pub connect: Vec<String>,
    /// JSON-RPC server address (requires json-rpc feature).
    pub json_rpc_address: Option<String>,
    /// Whether to write logs to stdout.
    pub log_to_stdout: bool,
    /// Whether to write logs to a file.
    pub log_to_file: bool,
    /// Enable assume-utreexo mode.
    pub assume_utreexo: bool,
    /// Enable debug logging.
    pub debug: bool,
    /// User agent string advertised to peers.
    pub user_agent: String,
    /// Custom Utreexo accumulator state for assume-utreexo.
    pub assumeutreexo_value: Option<AssumeUtreexoValue>,
    /// Electrum server address.
    pub electrum_address: Option<String>,
    /// Whether to enable the Electrum TLS server.
    pub enable_electrum_tls: bool,
    /// Electrum TLS server address.
    pub electrum_address_tls: Option<String>,
    /// Path to the TLS private key file.
    pub tls_key_path: Option<String>,
    /// Path to the TLS certificate file.
    pub tls_cert_path: Option<String>,
    /// Whether to generate a self-signed TLS certificate.
    pub generate_cert: bool,
    /// Whether to allow v1 transport fallback.
    pub allow_v1_fallback: bool,
    /// Whether to backfill skipped blocks.
    pub backfill: bool,
}

/// Which blocks the daemon assumes to have valid scripts, with the block hash
/// already decoded to its 32 bytes.
#[derive(Debug, Clone, PartialEq, Eq)]
pub enum NodeAssumeValid {
    Disabled,
    Hardcoded,
    UserInput([u8; 32]),
}

/// An accumulator state the daemon starts from, with every hash decoded.
#[derive(Debug, Clone, PartialEq, Eq)]
pub struct NodeAssumeUtreexoValue {
    pub block_hash: [u8; 32],
    pub height: u32,
    pub roots: Vec<[u8; 32]>,
    pub leaves: u64,
}

/// The settings the daemon is started with: the daemon's own configuration,
/// in which paths stay text, hashes are decoded and a single peer may be named.
#[derive(Debug, Clone, PartialEq, Eq)]
pub struct NodeConfig {
    pub network: Network,
    pub datadir: String,
    pub disable_dns_seeds: bool,
    pub wallet_xpub: Option<Vec<String>>,
    pub wallet_descriptor: Option<Vec<String>>,
    pub config_file: Option<String>,
    pub proxy: Option<String>,
    pub cfilters: bool,
    pub filters_start_height: Option<i32>,
    pub connect: Option<String>,
    pub json_rpc_address: Option<String>,
    /// Only a daemon built with ZMQ support reads it.
    pub zmq_address: Option<String>,
    pub log_to_stdout: bool,
    pub log_to_file: bool,
    pub assume_utreexo: bool,
    pub debug: bool,
    pub user_agent: String,
    pub electrum_address: Option<String>,
    pub enable_electrum_tls: bool,
    pub electrum_address_tls: Option<String>,
    pub tls_key_path: Option<String>,
    pub tls_cert_path: Option<String>,
    pub generate_cert: bool,
    pub allow_v1_fallback: bool,
    pub backfill: bool,
    pub assume_valid: NodeAssumeValid,
    pub assumeutreexo_value: Option<NodeAssumeUtreexoValue>,
}

/// The all-zero block hash.
pub open spec fn zero_hash() -> Seq<u8> {
    Seq::new(32, |i: int| 0u8)
}

/// The bytes of a block hash given as text; a malformed one reads as all zeros.
pub open spec fn block_hash_or_zero(s: Seq<char>) -> Seq<u8> {
    if is_hash_hex(s) {
        hash_bytes_reversed(s)
    } else {
        zero_hash()
    }
}

/// The daemon connects to the first of the listed nodes only.
pub open spec fn first_peer(connect: Seq<String>) -> Option<String> {
    if connect.len() > 0 {
        Some(connect[0])
    } else {
        None
    }
}

/// Every accumulator root is a well-formed 64-digit hash.
pub open spec fn all_roots_parse(roots: Seq<String>) -> bool {
    forall|i: int| 0 <= i < roots.len() ==> is_hash_hex(#[trigger] roots[i]@)
}

/// `n` is what the daemon is told for the assume-valid setting `a`.
pub open spec fn assume_valid_converted(a: AssumeValidArg, n: NodeAssumeValid) -> bool {
    match a {
        AssumeValidArg::Disabled => n is Disabled,
        AssumeValidArg::Hardcoded => n is Hardcoded,
        AssumeValidArg::UserInput { block_hash } => n matches NodeAssumeValid::UserInput(h)
            && h@ == block_hash_or_zero(block_hash@),
    }
}

/// `n` is the accumulator state `v` with its hashes decoded.
pub open spec fn utreexo_value_decoded(v: AssumeUtreexoValue, n: NodeAssumeUtreexoValue) -> bool {
    &&& n.block_hash@ == block_hash_or_zero(v.block_hash@)
    &&& n.height == v.height
    &&& n.leaves == v.leaves
    &&& n.roots@.len() == v.roots@.len()
    &&& forall|i: int|
        0 <= i < v.roots@.len() ==> (#[trigger] n.roots@[i])@ == hash_bytes_in_order(v.roots@[i]@)
}

/// `n` is what the daemon is told for the accumulator state `v`: it is kept
/// only when every root is well formed.
pub open spec fn assume_utreexo_converted(
    v: Option<AssumeUtreexoValue>,
    n: Option<NodeAssumeUtreexoValue>,
) -> bool {
    match v {
        None => n is None,
        Some(v) => if all_roots_parse(v.roots@) {
            n matches Some(n) && utreexo_value_decoded(v, n)
        } else {
            n is None
        },
    }
}

/// The daemon is told to connect to the first listed peer, and to no peer
/// exactly when none is listed.
pub proof fn lemma_first_listed_peer_is_kept(connect: Seq<String>)
    ensures
        connect.len() == 0 <==> first_peer(connect) is None,
        connect.len() > 0 ==> first_peer(connect) == Some(connect[0]),
{
}

/// Each assume-valid setting keeps its kind: disabled stays disabled, the
/// hard-coded hash stays hard-coded, a user hash stays a user hash.
pub proof fn lemma_assume_valid_keeps_its_kind(a: AssumeValidArg, n: NodeAssumeValid)
    requires
        assume_valid_converted(a, n),
    ensures
        a is Disabled <==> n is Disabled,
        a is Hardcoded <==> n is Hardcoded,
        a is UserInput <==> n is UserInput,
{
}

/// A well-formed user block hash is decoded to its bytes, last written byte
/// first; only a malformed one becomes the all-zero hash.
pub proof fn lemma_user_block_hash_decoded(s: String, n: NodeAssumeValid)
    requires
        assume_valid_converted(AssumeValidArg::UserInput { block_hash: s }, n),
    ensures
        n is UserInput,
        is_hash_hex(s@) ==> (n matches NodeAssumeValid::UserInput(h) && h@ == hash_bytes_reversed(
            s@,
        )),
        !is_hash_hex(s@) ==> (n matches NodeAssumeValid::UserInput(h) && forall|i: int|
            0 <= i < 32 ==> #[trigger] h@[i] == 0u8),
{
}

/// No accumulator state is made up when none is supplied.
pub proof fn lemma_no_state_stays_none(n: Option<NodeAssumeUtreexoValue>)
    requires
        assume_utreexo_converted(None, n),
    ensures
        n is None,
{
}

/// A supplied accumulator state is kept exactly when every root is a
/// well-formed 64-digit hash, whatever the number of roots; when kept, it has
/// as many roots as supplied, each decoded in written order, the same height
/// and leaf count, and its block hash decoded (last byte first) or, when
/// malformed, all zeros.
pub proof fn lemma_well_formed_state_is_kept(v: AssumeUtreexoValue, n: Option<NodeAssumeUtreexoValue>)
    requires
        assume_utreexo_converted(Some(v), n),
    ensures
        (forall|i: int| 0 <= i < v.roots@.len() ==> is_hash_hex(#[trigger] v.roots@[i]@)) <==> n is Some,
        n matches Some(s) ==> {
            &&& s.roots@.len() == v.roots@.len()
            &&& forall|i: int|
                0 <= i < v.roots@.len() ==> (#[trigger] s.roots@[i])@ == hash_bytes_in_order(
                    v.roots@[i]@,
                )
            &&& s.height == v.height
            &&& s.leaves == v.leaves
            &&& is_hash_hex(v.block_hash@) ==> s.block_hash@ == hash_bytes_reversed(v.block_hash@)
            &&& !is_hash_hex(v.block_hash@) ==> forall|i: int|
                0 <= i < 32 ==> #[trigger] s.block_hash@[i] == 0u8
        },
{
}

/// Decodes a user-supplied block hash, falling back to the all-zero hash.
fn block_hash_or_zero_exec(s: &String) -> (r: [u8; 32])
    ensures
        r@ == block_hash_or_zero(s@),
{
    match parse_block_hash(s.as_str()) {
        Some(h) => h,
        None => {
            let z = [0u8; 32];
            assert(z@ =~= zero_hash());
            z
        },
    }
}

/// Decodes a user-supplied assume-valid setting.
fn convert_assume_valid(a: AssumeValidArg) -> (r: NodeAssumeValid)
    ensures
        assume_valid_converted(a, r),
        a is Disabled <==> r is Disabled,
        a is Hardcoded <==> r is Hardcoded,
        a matches AssumeValidArg::UserInput { block_hash } ==> (r matches NodeAssumeValid::UserInput(h)
            && (is_hash_hex(block_hash@) ==> h@ == hash_bytes_reversed(block_hash@)) && (
        !is_hash_hex(block_hash@) ==> forall|i: int| 0 <= i < 32 ==> #[trigger] h@[i] == 0u8)),
{
    let ghost a0 = a;
    let r = match a {
        AssumeValidArg::Disabled => NodeAssumeValid::Disabled,
        AssumeValidArg::Hardcoded => NodeAssumeValid::Hardcoded,
        AssumeValidArg::UserInput { block_hash } => {
            NodeAssumeValid::UserInput(block_hash_or_zero_exec(&block_hash))
        },
    };
    proof {
        lemma_assume_valid_keeps_its_kind(a0, r);
        if let AssumeValidArg::UserInput { block_hash } = a0 {
            lemma_user_block_hash_decoded(block_hash, r);
        }
    }
    r
}

/// Decodes a user-supplied accumulator state; `None` when a root does not parse.
pub fn convert_assume_utreexo(v: AssumeUtreexoValue) -> (r: Option<NodeAssumeUtreexoValue>)
    ensures
        assume_utreexo_converted(Some(v), r),
        (forall|i: int| 0 <= i < v.roots@.len() ==> is_hash_hex(#[trigger] v.roots@[i]@)) <==> r is Some,
        r matches Some(s) ==> {
            &&& s.roots@.len() == v.roots@.len()
            &&& forall|i: int|
                0 <= i < v.roots@.len() ==> (#[trigger] s.roots@[i])@ == hash_bytes_in_order(
                    v.roots@[i]@,
                )
            &&& s.height == v.height
            &&& s.leaves == v.leaves
            &&& is_hash_hex(v.block_hash@) ==> s.block_hash@ == hash_bytes_reversed(v.block_hash@)
            &&& !is_hash_hex(v.block_hash@) ==> forall|i: int|
                0 <= i < 32 ==> #[trigger] s.block_hash@[i] == 0u8
        },
{
    let ghost v0 = v;
    let hash = block_hash_or_zero_exec(&v.block_hash);
    let mut roots: Vec<[u8; 32]> = Vec::new();
    let n = v.roots.len();
    let mut i: usize = 0;
    while i < n
        invariant
            n == v.roots@.len(),
            i <= n,
            roots@.len() <= i,
            roots@.len() == i <==> (forall|j: int| 0 <= j < i ==> is_hash_hex(#[trigger] v.roots@[j]@)),
            roots@.len() == i ==> (forall|j: int|
                0 <= j < i ==> (#[trigger] roots@[j])@ == hash_bytes_in_order(v.roots@[j]@)),
        decreases n - i,
    {
        let parsed = parse_node_hash(v.roots[i].as_str());
        match parsed {
            Some(h) => {
                roots.push(h);
            },
            None => {},
        }
        i = i + 1;
    }
    let r = if roots.len() != n {
        assert(!all_roots_parse(v.roots@));
        None
    } else {
        Some(NodeAssumeUtreexoValue { block_hash: hash, height: v.height, roots, leaves: v.leaves })
    };
    proof {
        lemma_well_formed_state_is_kept(v0, r);
    }
    r
}

impl Config {
    /// The settings the daemon is started with for this configuration.
    ///
    /// Every field carries over; the daemon connects to the first of the listed
    /// nodes only; a malformed assume-valid block hash becomes the all-zero hash;
    /// an accumulator state is dropped when any of its roots is malformed, and
    /// a malformed block hash in it becomes the all-zero hash.
    pub fn into_node_config(self) -> (r: NodeConfig)
        ensures
            r.network == self.network,
            r.datadir == self.datadir,
            r.disable_dns_seeds == self.disable_dns_seeds,
            r.wallet_xpub == self.wallet_xpub,
            r.wallet_descriptor == self.wallet_descriptor,
            r.config_file == self.config_file,
            r.proxy == self.proxy,
            r.cfilters == self.cfilters,
            r.filters_start_height == self.filters_start_height,
            r.connect == first_peer(self.connect@),
            r.json_rpc_address == self.json_rpc_address,
            r.zmq_address == self.zmq_address,
            r.log_to_stdout == self.log_to_stdout,
            r.log_to_file == self.log_to_file,
            r.assume_utreexo == self.assume_utreexo,
            r.debug == self.debug,
            r.user_agent == self.user_agent,
            r.electrum_address == self.electrum_address,
            r.enable_electrum_tls == self.enable_electrum_tls,
            r.electrum_address_tls == self.electrum_address_tls,
            r.tls_key_path == self.tls_key_path,
            r.tls_cert_path == self.tls_cert_path,
            r.generate_cert == self.generate_cert,
            r.allow_v1_fallback == self.allow_v1_fallback,
            r.backfill == self.backfill,
            assume_valid_converted(self.assume_valid, r.assume_valid),
            assume_utreexo_converted(self.assumeutreexo_value, r.assumeutreexo_value),
            self.connect@.len() == 0 <==> r.connect is None,
            self.connect@.len() > 0 ==> r.connect == Some(self.connect@[0]),
            self.assume_valid is Disabled <==> r.assume_valid is Disabled,
            self.assume_valid is Hardcoded <==> r.assume_valid is Hardcoded,
            self.assume_valid matches AssumeValidArg::UserInput { block_hash } ==> (
            r.assume_valid matches NodeAssumeValid::UserInput(h) && (is_hash_hex(block_hash@)
                ==> h@ == hash_bytes_reversed(block_hash@)) && (!is_hash_hex(block_hash@)
                ==> forall|i: int| 0 <= i < 32 ==> #[trigger] h@[i] == 0u8)),
            self.assumeutreexo_value is None ==> r.assumeutreexo_value is None,
            self.assumeutreexo_value matches Some(v) ==> ((forall|i: int|
                0 <= i < v.roots@.len() ==> is_hash_hex(#[trigger] v.roots@[i]@))
                <==> r.assumeutreexo_value is Some),
            self.assumeutreexo_value matches Some(v) ==> (r.assumeutreexo_value matches Some(s)
                ==> {
                &&& s.roots@.len() == v.roots@.len()
                &&& forall|i: int|
                    0 <= i < v.roots@.len() ==> (#[trigger] s.roots@[i])@ == hash_bytes_in_order(
                        v.roots@[i]@,
                    )
                &&& s.height == v.height
                &&& s.leaves == v.leaves
                &&& is_hash_hex(v.block_hash@) ==> s.block_hash@ == hash_bytes_reversed(
                    v.block_hash@,
                )
                &&& !is_hash_hex(v.block_hash@) ==> forall|i: int|
                    0 <= i < 32 ==> #[trigger] s.block_hash@[i] == 0u8
            }),
    {
        let ghost c0 = self;
        proof {
            lemma_first_listed_peer_is_kept(c0.connect@);
        }
        let mut connect = self.connect;
        let first = if connect.len() > 0 {
            Some(connect.remove(0))
        } else {
            None
        };
        let assume_valid = convert_assume_valid(self.assume_valid);
        let assumeutreexo_value = match self.assumeutreexo_value {
            Some(v) => convert_assume_utreexo(v),
            None => None,
        };
        NodeConfig {
            network: self.network,
            datadir: self.datadir,
            disable_dns_seeds: self.disable_dns_seeds,
            wallet_xpub: self.wallet_xpub,
            wallet_descriptor: self.wallet_descriptor,
            config_file: self.config_file,
            proxy: self.proxy,
            cfilters: self.cfilters,
            filters_start_height: self.filters_start_height,
            connect: first,
            json_rpc_address: self.json_rpc_address,
            zmq_address: self.zmq_address,
            log_to_stdout: self.log_to_stdout,
            log_to_file: self.log_to_file,
            assume_utreexo: self.assume_utreexo,
            debug: self.debug,
            user_agent: self.user_agent,
            electrum_address: self.electrum_address,
            enable_electrum_tls: self.enable_electrum_tls,
            electrum_address_tls: self.electrum_address_tls,
            tls_key_path: self.tls_key_path,
            tls_cert_path: self.tls_cert_path,
            generate_cert: self.generate_cert,
            allow_v1_fallback: self.allow_v1_fallback,
            backfill: self.backfill,
            assume_valid,
            assumeutreexo_value,
        }
    }
}

} // verus!
