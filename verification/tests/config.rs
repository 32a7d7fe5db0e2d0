use ledger_gateway::config::{
    cache_expiration_seconds, create_filter, filter_passes, holds_key, CredentialType,
    DefaultBlockUploaderArgs, FilterTxIncludeExclude, LedgerCacheConfig, UploaderConfig,
    UploaderFlags,
};

fn flags() -> UploaderFlags {
    UploaderFlags {
        disable_tx: false,
        disable_tx_by_addr: false,
        disable_blocks: false,
        enable_full_tx: false,
        disable_blocks_compression: false,
        disable_tx_compression: false,
        disable_tx_by_addr_compression: false,
        disable_tx_full_compression: false,
        hbase_skip_wal: false,
        use_md5_row_key_salt: false,
        filter_tx_by_addr_programs: false,
        filter_voting_tx: false,
        filter_error_tx: false,
        filter_tx_full_include_addrs: vec![],
        filter_tx_full_exclude_addrs: vec![],
        filter_tx_by_addr_include_addrs: vec![],
        filter_tx_by_addr_exclude_addrs: vec![],
    }
}

#[test]
fn default_flags_are_all_off() {
    let args = DefaultBlockUploaderArgs::new();
    assert_eq!(args, DefaultBlockUploaderArgs::default());
    assert!(!args.disable_tx && !args.disable_tx_by_addr && !args.disable_blocks);
    assert!(!args.enable_full_tx && !args.use_md5_row_key_salt && !args.enable_full_tx_cache);
    assert!(!args.disable_blocks_compression && !args.disable_tx_compression);
    assert!(!args.disable_tx_by_addr_compression && !args.disable_tx_full_compression);
}

#[test]
fn default_uploader_writes_everything_compressed() {
    let config = UploaderConfig::default();
    assert_eq!(config.blocks_table_name, "blocks");
    assert_eq!(config.tx_table_name, "tx");
    assert_eq!(config.tx_by_addr_table_name, "tx-by-addr");
    assert_eq!(config.full_tx_table_name, "tx_full");
    assert!(config.tx_full_filter.is_none() && config.tx_by_addr_filter.is_none());
    assert!(!config.disable_tx && !config.disable_tx_by_addr && !config.disable_blocks);
    assert!(!config.enable_full_tx && !config.use_md5_row_key_salt);
    assert!(!config.filter_program_accounts && !config.filter_voting_tx && !config.filter_error_tx);
    assert!(config.use_blocks_compression && config.use_tx_compression);
    assert!(config.use_tx_by_addr_compression && config.use_tx_full_compression);
    assert!(config.hbase_write_to_wal);
}

#[test]
fn default_cache_keeps_transactions_for_fourteen_days() {
    let config = LedgerCacheConfig::default();
    assert!(!config.enable_full_tx_cache);
    assert_eq!(config.address, "127.0.0.1:11211");
    assert_eq!(config.timeout, Some(1));
    assert_eq!(config.tx_cache_expiration, Some(60 * 60 * 24 * 14));
}

#[test]
fn flags_become_the_configuration_of_the_uploader() {
    let mut given = flags();
    given.disable_tx = true;
    given.enable_full_tx = true;
    given.disable_tx_compression = true;
    given.hbase_skip_wal = true;
    given.filter_tx_full_exclude_addrs = vec![[1; 32]];
    given.filter_tx_full_include_addrs = vec![[2; 32]];
    given.filter_tx_by_addr_include_addrs = vec![[3; 32]];
    let config = UploaderConfig::from_flags(given);
    assert!(config.disable_tx && config.enable_full_tx);
    assert!(!config.disable_tx_by_addr && !config.disable_blocks);
    assert!(!config.use_tx_compression && config.use_blocks_compression);
    assert!(config.use_tx_by_addr_compression && config.use_tx_full_compression);
    assert!(!config.hbase_write_to_wal);
    assert_eq!(config.blocks_table_name, "blocks");
    assert_eq!(config.tx_table_name, "tx");
    assert_eq!(config.tx_by_addr_table_name, "tx-by-addr");
    assert_eq!(config.full_tx_table_name, "tx_full");
    assert!(!config.use_md5_row_key_salt && !config.filter_program_accounts);
    assert!(!config.filter_voting_tx && !config.filter_error_tx);
    assert_eq!(
        config.tx_full_filter,
        Some(FilterTxIncludeExclude { exclude: true, addrs: vec![[1; 32]] })
    );
    assert_eq!(
        config.tx_by_addr_filter,
        Some(FilterTxIncludeExclude { exclude: false, addrs: vec![[3; 32]] })
    );
    let config = UploaderConfig::from_flags(flags());
    assert!(config.tx_full_filter.is_none() && config.tx_by_addr_filter.is_none());
    assert!(config.hbase_write_to_wal);
}

#[test]
fn filters_include_or_exclude() {
    assert_eq!(create_filter(vec![], vec![]), None);
    assert_eq!(
        create_filter(vec![], vec![[1; 32]]),
        Some(FilterTxIncludeExclude { exclude: false, addrs: vec![[1; 32]] })
    );
    assert_eq!(
        create_filter(vec![[2; 32]], vec![[1; 32]]),
        Some(FilterTxIncludeExclude { exclude: true, addrs: vec![[2; 32]] })
    );
    let only = create_filter(vec![], vec![[1; 32]]);
    assert!(filter_passes(&only, &[1; 32]));
    assert!(!filter_passes(&only, &[2; 32]));
    let not = create_filter(vec![[1; 32]], vec![]);
    assert!(!filter_passes(&not, &[1; 32]));
    assert!(filter_passes(&not, &[2; 32]));
    assert!(filter_passes(&None, &[1; 32]));
    assert!(holds_key(&vec![[1; 32], [2; 32]], &[2; 32]));
    assert!(!holds_key(&vec![], &[2; 32]));
}

#[test]
fn cache_flags_are_in_days() {
    let config = LedgerCacheConfig::from_flags(true, Some("host:1".to_string()), Some(3), Some(30));
    assert!(config.enable_full_tx_cache);
    assert_eq!(config.address, "host:1");
    assert_eq!(config.timeout, Some(3));
    assert_eq!(config.tx_cache_expiration, Some(30 * 24 * 60 * 60));
    let config = LedgerCacheConfig::from_flags(false, None, None, None);
    assert_eq!(config.address, "");
    assert_eq!(config.timeout, None);
    assert_eq!(config.tx_cache_expiration, None);
    assert_eq!(
        LedgerCacheConfig::from_flags(false, None, None, Some(0)).tx_cache_expiration,
        Some(0)
    );
}

#[test]
fn expiration_is_capped_at_32_bits() {
    assert_eq!(cache_expiration_seconds(None), 0);
    assert_eq!(cache_expiration_seconds(Some(0)), 0);
    assert_eq!(cache_expiration_seconds(Some(1_209_600)), 1_209_600);
    assert_eq!(cache_expiration_seconds(Some(u32::MAX as u64)), u32::MAX);
    assert_eq!(cache_expiration_seconds(Some(u32::MAX as u64 + 1)), u32::MAX);
    assert_eq!(cache_expiration_seconds(Some(u64::MAX)), u32::MAX);
}

#[test]
fn credentials_come_from_a_file_or_a_text() {
    assert_ne!(CredentialType::Filepath(None), CredentialType::Stringified("x".to_string()));
    assert_eq!(
        CredentialType::Filepath(Some("f".to_string())),
        CredentialType::Filepath(Some("f".to_string()))
    );
}

#[test]
fn each_switch_of_the_uploader_is_handed_on() {
    let mut given = flags();
    given.use_md5_row_key_salt = true;
    let config = UploaderConfig::from_flags(given);
    assert!(config.use_md5_row_key_salt);
    assert!(!config.filter_program_accounts && !config.filter_voting_tx && !config.filter_error_tx);
    let mut given = flags();
    given.filter_tx_by_addr_programs = true;
    let config = UploaderConfig::from_flags(given);
    assert!(config.filter_program_accounts);
    assert!(!config.use_md5_row_key_salt && !config.filter_voting_tx && !config.filter_error_tx);
    let mut given = flags();
    given.filter_voting_tx = true;
    let config = UploaderConfig::from_flags(given);
    assert!(config.filter_voting_tx);
    assert!(!config.use_md5_row_key_salt && !config.filter_program_accounts && !config.filter_error_tx);
    let mut given = flags();
    given.filter_error_tx = true;
    let config = UploaderConfig::from_flags(given);
    assert!(config.filter_error_tx);
    assert!(!config.use_md5_row_key_salt && !config.filter_program_accounts && !config.filter_voting_tx);
}
