//! A ledger storage gateway: the rules by which confirmed blocks are decoded,
//! indexed, written to a wide-column store and read back.

pub mod address;
pub mod address_scan;
pub mod bigtable;
pub mod bigtable_writer;
pub mod block;
pub mod cell;
pub mod compression;
pub mod config;
pub mod decodable;
pub mod errors;
pub mod hbase;
pub mod instruction;
pub mod key;
pub mod message;
pub mod message_v0;
pub mod reader;
pub mod records;
pub mod seqs;
pub mod text;
pub mod transaction;
pub mod tx_by_addr;
pub mod tx_info;
pub mod tx_status_meta;
pub mod tx_utils;
pub mod types;
pub mod ui;
pub mod upload;
pub mod versioned_message;
pub mod wire;
pub mod wire_laws;
