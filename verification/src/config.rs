//! What an upload run and a reader are set up with.

use vstd::prelude::*;
use vstd::string::*;

use crate::types::{same_key, Pubkey};

verus! {

pub const BLOCKS_TABLE_NAME: &'static str = "blocks";

pub const TX_TABLE_NAME: &'static str = "tx";

pub const TX_BY_ADDR_TABLE_NAME: &'static str = "tx-by-addr";

pub const FULL_TX_TABLE_NAME: &'static str = "tx_full";

pub const DEFAULT_ADDRESS: &'static str = "127.0.0.1:9090";

pub const DEFAULT_MEMCACHE_ADDRESS: &'static str = "127.0.0.1:11211";

pub const DEFAULT_INSTANCE_NAME: &'static str = "solana-ledger";

pub const DEFAULT_APP_PROFILE_ID: &'static str = "default";

/// Seconds in a day.
pub const SECONDS_PER_DAY: u64 = 86400;

/// The longest time that the flag for the expiration of cached transactions
/// accepts, in days.
pub const MAX_EXPIRATION_DAYS: u64 = 30;

/// Where the credentials of the cloud store come from.
#[derive(Clone, Debug, PartialEq, Eq)]
pub enum CredentialType {
    Filepath(Option<String>),
    Stringified(String),
}

/// A list of addresses that says which transactions an index takes: those
/// that touch none of the addresses, if `exclude` is set, else only those
/// that touch one.
#[derive(Clone, Debug, PartialEq, Eq)]
pub struct FilterTxIncludeExclude {
    pub exclude: bool,
    pub addrs: Vec<Pubkey>,
}

/// Which tables an upload writes, and how.
#[derive(Clone, Debug)]
pub struct UploaderConfig {
    pub tx_full_filter: Option<FilterTxIncludeExclude>,
    pub tx_by_addr_filter: Option<FilterTxIncludeExclude>,
    pub disable_tx: bool,
    pub disable_tx_by_addr: bool,
    pub disable_blocks: bool,
    pub enable_full_tx: bool,
    pub blocks_table_name: String,
    pub tx_table_name: String,
    pub tx_by_addr_table_name: String,
    pub full_tx_table_name: String,
    pub use_md5_row_key_salt: bool,
    pub filter_program_accounts: bool,
    pub filter_voting_tx: bool,
    pub filter_error_tx: bool,
    pub use_blocks_compression: bool,
    pub use_tx_compression: bool,
    pub use_tx_by_addr_compression: bool,
    pub use_tx_full_compression: bool,
    pub hbase_write_to_wal: bool,
}

/// The cache of full transactions. Times are in seconds.
#[derive(Clone, Debug)]
pub struct LedgerCacheConfig {
    pub enable_full_tx_cache: bool,
    pub address: String,
    pub timeout: Option<u64>,
    pub tx_cache_expiration: Option<u64>,
}

/// What the flags of the uploader say when none is given.
#[derive(Clone, Copy, Debug, PartialEq, Eq, Structural)]
pub struct DefaultBlockUploaderArgs {
    pub disable_tx: bool,
    pub disable_tx_by_addr: bool,
    pub disable_blocks: bool,
    pub enable_full_tx: bool,
    pub use_md5_row_key_salt: bool,
    pub disable_blocks_compression: bool,
    pub disable_tx_compression: bool,
    pub disable_tx_by_addr_compression: bool,
    pub disable_tx_full_compression: bool,
    pub enable_full_tx_cache: bool,
}

/// The flags of the uploader that bear on what is written.
#[derive(Clone, Debug)]
pub struct UploaderFlags {
    pub disable_tx: bool,
    pub disable_tx_by_addr: bool,
    pub disable_blocks: bool,
    pub enable_full_tx: bool,
    pub disable_blocks_compression: bool,
    pub disable_tx_compression: bool,
    pub disable_tx_by_addr_compression: bool,
    pub disable_tx_full_compression: bool,
    pub hbase_skip_wal: bool,
    pub use_md5_row_key_salt: bool,
    pub filter_tx_by_addr_programs: bool,
    pub filter_voting_tx: bool,
    pub filter_error_tx: bool,
    pub filter_tx_full_include_addrs: Vec<Pubkey>,
    pub filter_tx_full_exclude_addrs: Vec<Pubkey>,
    pub filter_tx_by_addr_include_addrs: Vec<Pubkey>,
    pub filter_tx_by_addr_exclude_addrs: Vec<Pubkey>,
}

impl DefaultBlockUploaderArgs {
    /// Every flag off.
    pub fn new() -> (args: DefaultBlockUploaderArgs)
        ensures
            args == (DefaultBlockUploaderArgs {
                disable_tx: false,
                disable_tx_by_addr: false,
                disable_blocks: false,
                enable_full_tx: false,
                use_md5_row_key_salt: false,
                disable_blocks_compression: false,
                disable_tx_compression: false,
                disable_tx_by_addr_compression: false,
                disable_tx_full_compression: false,
                enable_full_tx_cache: false,
            }),
    {
        DefaultBlockUploaderArgs {
            disable_tx: false,
            disable_tx_by_addr: false,
            disable_blocks: false,
            enable_full_tx: false,
            use_md5_row_key_salt: false,
            disable_blocks_compression: false,
            disable_tx_compression: false,
            disable_tx_by_addr_compression: false,
            disable_tx_full_compression: false,
            enable_full_tx_cache: false,
        }
    }
}

impl Default for DefaultBlockUploaderArgs {
    fn default() -> (args: DefaultBlockUploaderArgs)
        ensures
            !args.disable_tx && !args.disable_tx_by_addr && !args.disable_blocks
                && !args.enable_full_tx && !args.use_md5_row_key_salt
                && !args.disable_blocks_compression && !args.disable_tx_compression
                && !args.disable_tx_by_addr_compression && !args.disable_tx_full_compression
                && !args.enable_full_tx_cache,
    {
        DefaultBlockUploaderArgs::new()
    }
}

/// Whether a list holds an address.
pub fn holds_key(addrs: &Vec<Pubkey>, address: &Pubkey) -> (held: bool)
    ensures
        held == addrs@.contains(*address),
{
    let mut i: usize = 0;
    while i < addrs.len()
        invariant
            i <= addrs.len(),
            forall|j: int| 0 <= j < i ==> addrs@[j] != *address,
        decreases addrs.len() - i,
    {
        if same_key(&addrs[i], address) {
            return true;
        }
        i = i + 1;
    }
    false
}

/// Whether a filter lets an address pass; no filter lets every address pass.
pub open spec fn passes(filter: Option<FilterTxIncludeExclude>, address: Pubkey) -> bool {
    match filter {
        None => true,
        Some(f) => if f.exclude {
            !f.addrs@.contains(address)
        } else {
            f.addrs@.contains(address)
        },
    }
}

/// Whether a filter lets an address pass.
pub fn filter_passes(filter: &Option<FilterTxIncludeExclude>, address: &Pubkey) -> (pass: bool)
    ensures
        pass == passes(*filter, *address),
{
    match filter {
        None => true,
        Some(f) => {
            if f.exclude {
                !holds_key(&f.addrs, address)
            } else {
                holds_key(&f.addrs, address)
            }
        },
    }
}

/// The filter that two lists of addresses ask for: none where both are
/// empty; one that excludes where there are addresses to exclude; else one
/// that includes.
pub fn create_filter(
    filter_tx_exclude_addrs: Vec<Pubkey>,
    filter_tx_include_addrs: Vec<Pubkey>,
) -> (filter: Option<FilterTxIncludeExclude>)
    ensures
        filter is None <==> filter_tx_exclude_addrs@.len() == 0 && filter_tx_include_addrs@.len()
            == 0,
        filter matches Some(f) ==> f.exclude == (filter_tx_exclude_addrs@.len() > 0) && f.addrs
            == (if f.exclude {
            filter_tx_exclude_addrs
        } else {
            filter_tx_include_addrs
        }),
{
    let exclude_tx_addrs = filter_tx_exclude_addrs.len() > 0;
    let include_tx_addrs = filter_tx_include_addrs.len() > 0;
    if exclude_tx_addrs || include_tx_addrs {
        Some(
            FilterTxIncludeExclude {
                exclude: exclude_tx_addrs,
                addrs: if exclude_tx_addrs {
                    filter_tx_exclude_addrs
                } else {
                    filter_tx_include_addrs
                },
            },
        )
    } else {
        None
    }
}

/// Whether an uploader is set up as it is when nothing is said: every
/// table but `tx_full` written, under its own name, compressed and through
/// the log; nothing filtered; row keys without salt.
pub open spec fn default_uploader(config: UploaderConfig) -> bool {
    &&& config.tx_full_filter is None
    &&& config.tx_by_addr_filter is None
    &&& !config.disable_tx
    &&& !config.disable_tx_by_addr
    &&& !config.disable_blocks
    &&& !config.enable_full_tx
    &&& config.blocks_table_name@ == BLOCKS_TABLE_NAME@
    &&& config.tx_table_name@ == TX_TABLE_NAME@
    &&& config.tx_by_addr_table_name@ == TX_BY_ADDR_TABLE_NAME@
    &&& config.full_tx_table_name@ == FULL_TX_TABLE_NAME@
    &&& !config.use_md5_row_key_salt
    &&& !config.filter_program_accounts
    &&& !config.filter_voting_tx
    &&& !config.filter_error_tx
    &&& config.use_blocks_compression
    &&& config.use_tx_compression
    &&& config.use_tx_by_addr_compression
    &&& config.use_tx_full_compression
    &&& config.hbase_write_to_wal
}

/// Whether a cache is set up as it is when nothing is said: switched off,
/// on this machine, with a connection timeout of one second, and with
/// cached transactions kept for fourteen days.
pub open spec fn default_cache(config: LedgerCacheConfig) -> bool {
    &&& !config.enable_full_tx_cache
    &&& config.address@ == DEFAULT_MEMCACHE_ADDRESS@
    &&& config.timeout == Some(1u64)
    &&& config.tx_cache_expiration == Some(1209600u64)
}

impl Default for UploaderConfig {
    fn default() -> (config: UploaderConfig)
        ensures
            default_uploader(config),
    {
        UploaderConfig {
            tx_full_filter: None,
            tx_by_addr_filter: None,
            disable_tx: false,
            disable_tx_by_addr: false,
            disable_blocks: false,
            enable_full_tx: false,
            blocks_table_name: String::from_str(BLOCKS_TABLE_NAME),
            tx_table_name: String::from_str(TX_TABLE_NAME),
            tx_by_addr_table_name: String::from_str(TX_BY_ADDR_TABLE_NAME),
            full_tx_table_name: String::from_str(FULL_TX_TABLE_NAME),
            use_md5_row_key_salt: false,
            filter_program_accounts: false,
            filter_voting_tx: false,
            filter_error_tx: false,
            use_blocks_compression: true,
            use_tx_compression: true,
            use_tx_by_addr_compression: true,
            use_tx_full_compression: true,
            hbase_write_to_wal: true,
        }
    }
}

impl UploaderConfig {
    /// What the flags of the uploader ask for. Each `disable` flag for
    /// compression and the flag to skip the log turn the matching switch
    /// off; the flags for the salt and for the three filters are handed
    /// on; the tables keep their own names.
    pub fn from_flags(flags: UploaderFlags) -> (config: UploaderConfig)
        ensures
            config.disable_tx == flags.disable_tx,
            config.disable_tx_by_addr == flags.disable_tx_by_addr,
            config.disable_blocks == flags.disable_blocks,
            config.enable_full_tx == flags.enable_full_tx,
            config.use_blocks_compression == !flags.disable_blocks_compression,
            config.use_tx_compression == !flags.disable_tx_compression,
            config.use_tx_by_addr_compression == !flags.disable_tx_by_addr_compression,
            config.use_tx_full_compression == !flags.disable_tx_full_compression,
            config.hbase_write_to_wal == !flags.hbase_skip_wal,
            config.use_md5_row_key_salt == flags.use_md5_row_key_salt,
            config.filter_program_accounts == flags.filter_tx_by_addr_programs,
            config.filter_voting_tx == flags.filter_voting_tx,
            config.filter_error_tx == flags.filter_error_tx,
            config.blocks_table_name@ == BLOCKS_TABLE_NAME@,
            config.tx_table_name@ == TX_TABLE_NAME@,
            config.tx_by_addr_table_name@ == TX_BY_ADDR_TABLE_NAME@,
            config.full_tx_table_name@ == FULL_TX_TABLE_NAME@,
            config.tx_full_filter is None <==> flags.filter_tx_full_exclude_addrs@.len() == 0
                && flags.filter_tx_full_include_addrs@.len() == 0,
            config.tx_full_filter matches Some(f) ==> f.exclude == (
            flags.filter_tx_full_exclude_addrs@.len() > 0) && f.addrs == (if f.exclude {
                flags.filter_tx_full_exclude_addrs
            } else {
                flags.filter_tx_full_include_addrs
            }),
            config.tx_by_addr_filter is None <==> flags.filter_tx_by_addr_exclude_addrs@.len() == 0
                && flags.filter_tx_by_addr_include_addrs@.len() == 0,
            config.tx_by_addr_filter matches Some(f) ==> f.exclude == (
            flags.filter_tx_by_addr_exclude_addrs@.len() > 0) && f.addrs == (if f.exclude {
                flags.filter_tx_by_addr_exclude_addrs
            } else {
                flags.filter_tx_by_addr_include_addrs
            }),
    {
        let tx_full_filter = create_filter(
            flags.filter_tx_full_exclude_addrs,
            flags.filter_tx_full_include_addrs,
        );
        let tx_by_addr_filter = create_filter(
            flags.filter_tx_by_addr_exclude_addrs,
            flags.filter_tx_by_addr_include_addrs,
        );
        UploaderConfig {
            tx_full_filter,
            tx_by_addr_filter,
            disable_tx: flags.disable_tx,
            disable_tx_by_addr: flags.disable_tx_by_addr,
            disable_blocks: flags.disable_blocks,
            enable_full_tx: flags.enable_full_tx,
            blocks_table_name: String::from_str(BLOCKS_TABLE_NAME),
            tx_table_name: String::from_str(TX_TABLE_NAME),
            tx_by_addr_table_name: String::from_str(TX_BY_ADDR_TABLE_NAME),
            full_tx_table_name: String::from_str(FULL_TX_TABLE_NAME),
            use_md5_row_key_salt: flags.use_md5_row_key_salt,
            filter_program_accounts: flags.filter_tx_by_addr_programs,
            filter_voting_tx: flags.filter_voting_tx,
            filter_error_tx: flags.filter_error_tx,
            use_blocks_compression: !flags.disable_blocks_compression,
            use_tx_compression: !flags.disable_tx_compression,
            use_tx_by_addr_compression: !flags.disable_tx_by_addr_compression,
            use_tx_full_compression: !flags.disable_tx_full_compression,
            hbase_write_to_wal: !flags.hbase_skip_wal,
        }
    }
}

impl Default for LedgerCacheConfig {
    fn default() -> (config: LedgerCacheConfig)
        ensures
            default_cache(config),
    {
        LedgerCacheConfig {
            enable_full_tx_cache: false,
            address: String::from_str(DEFAULT_MEMCACHE_ADDRESS),
            timeout: Some(1),
            tx_cache_expiration: Some(14 * SECONDS_PER_DAY),
        }
    }
}

impl LedgerCacheConfig {
    /// What the flags of the uploader ask of the cache. An address that is
    /// not given is the empty text; the expiration is given in days.
    pub fn from_flags(
        enable_full_tx_cache: bool,
        cache_address: Option<String>,
        cache_timeout: Option<u64>,
        tx_cache_expiration_days: Option<u64>,
    ) -> (config: LedgerCacheConfig)
        requires
            tx_cache_expiration_days matches Some(days) ==> days <= MAX_EXPIRATION_DAYS,
        ensures
            config.enable_full_tx_cache == enable_full_tx_cache,
            config.address@ == match cache_address {
                Some(a) => a@,
                None => Seq::<char>::empty(),
            },
            config.timeout == cache_timeout,
            config.tx_cache_expiration == match tx_cache_expiration_days {
                Some(days) => Some((days * SECONDS_PER_DAY) as u64),
                None => None,
            },
    {
        LedgerCacheConfig {
            enable_full_tx_cache,
            address: match cache_address {
                Some(a) => a,
                None => String::new(),
            },
            timeout: cache_timeout,
            tx_cache_expiration: match tx_cache_expiration_days {
                Some(days) => Some(days * SECONDS_PER_DAY),
                None => None,
            },
        }
    }
}

/// For how many seconds the cache keeps a transaction: the time that was
/// set, but no more than 32 bits hold; zero, which is for ever, where none
/// was set.
pub fn cache_expiration_seconds(tx_cache_expiration: Option<u64>) -> (seconds: u32)
    ensures
        seconds == match tx_cache_expiration {
            Some(s) => if s > u32::MAX {
                u32::MAX
            } else {
                s as u32
            },
            None => 0u32,
        },
{
    match tx_cache_expiration {
        Some(s) => {
            if s > 0xffff_ffff {
                0xffff_ffff
            } else {
                s as u32
            }
        },
        None => 0,
    }
}

} // verus!
