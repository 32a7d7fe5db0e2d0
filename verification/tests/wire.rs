use ledger_gateway::address::MessageAddressTableLookup;
use ledger_gateway::instruction::CompiledInstruction;
use ledger_gateway::message::Message;
use ledger_gateway::transaction::{Transaction, VersionedTransaction};
use ledger_gateway::ui::MessageHeader;
use ledger_gateway::versioned_message::VersionedMessage;
use ledger_gateway::wire::{read_short_len, write_short_len, WireError};

fn key(seed: u8) -> [u8; 32] {
    let mut k = [0u8; 32];
    for (i, b) in k.iter_mut().enumerate() {
        *b = seed.wrapping_add(i as u8);
    }
    k
}

fn signature(seed: u8) -> [u8; 64] {
    let mut s = [0u8; 64];
    for (i, b) in s.iter_mut().enumerate() {
        *b = seed.wrapping_mul(3).wrapping_add(i as u8);
    }
    s
}

fn legacy_message() -> Message {
    Message {
        header: MessageHeader {
            num_required_signatures: 2,
            num_readonly_signed_accounts: 1,
            num_readonly_unsigned_accounts: 1,
        },
        account_keys: vec![key(1), key(2), key(3)],
        recent_blockhash: key(9),
        instructions: vec![
            CompiledInstruction { program_id_index: 2, accounts: vec![0, 1], data: vec![1, 2, 3] },
            CompiledInstruction { program_id_index: 2, accounts: vec![], data: vec![0u8; 200] },
        ],
    }
}

fn v0_message() -> ledger_gateway::message_v0::Message {
    ledger_gateway::message_v0::Message {
        header: MessageHeader {
            num_required_signatures: 1,
            num_readonly_signed_accounts: 0,
            num_readonly_unsigned_accounts: 1,
        },
        account_keys: vec![key(4), key(5)],
        recent_blockhash: key(6),
        instructions: vec![CompiledInstruction {
            program_id_index: 1,
            accounts: vec![0, 2, 3],
            data: vec![7; 5],
        }],
        address_table_lookups: vec![MessageAddressTableLookup {
            account_key: key(7),
            writable_indexes: vec![1, 2],
            readonly_indexes: vec![3],
        }],
    }
}

fn outside_instruction(
    i: &CompiledInstruction,
) -> solana_message::compiled_instruction::CompiledInstruction {
    solana_message::compiled_instruction::CompiledInstruction {
        program_id_index: i.program_id_index,
        accounts: i.accounts.clone(),
        data: i.data.clone(),
    }
}

fn outside_header(h: &MessageHeader) -> solana_message::MessageHeader {
    solana_message::MessageHeader {
        num_required_signatures: h.num_required_signatures,
        num_readonly_signed_accounts: h.num_readonly_signed_accounts,
        num_readonly_unsigned_accounts: h.num_readonly_unsigned_accounts,
    }
}

fn outside_legacy(m: &Message) -> solana_message::Message {
    solana_message::Message {
        header: outside_header(&m.header),
        account_keys: m
            .account_keys
            .iter()
            .map(|k| solana_pubkey::Pubkey::new_from_array(*k))
            .collect(),
        recent_blockhash: solana_hash::Hash::new_from_array(m.recent_blockhash),
        instructions: m.instructions.iter().map(outside_instruction).collect(),
    }
}

fn outside_v0(m: &ledger_gateway::message_v0::Message) -> solana_message::v0::Message {
    solana_message::v0::Message {
        header: outside_header(&m.header),
        account_keys: m
            .account_keys
            .iter()
            .map(|k| solana_pubkey::Pubkey::new_from_array(*k))
            .collect(),
        recent_blockhash: solana_hash::Hash::new_from_array(m.recent_blockhash),
        instructions: m.instructions.iter().map(outside_instruction).collect(),
        address_table_lookups: m
            .address_table_lookups
            .iter()
            .map(|l| solana_message::v0::MessageAddressTableLookup {
                account_key: solana_pubkey::Pubkey::new_from_array(l.account_key),
                writable_indexes: l.writable_indexes.clone(),
                readonly_indexes: l.readonly_indexes.clone(),
            })
            .collect(),
    }
}

#[test]
fn lengths_are_written_as_short_vec_writes_them() {
    for n in 0..=0xffffusize {
        let mut out = vec![0xaa];
        assert!(write_short_len(&mut out, n));
        let expected = bincode::serialize(&solana_short_vec::ShortU16(n as u16)).unwrap();
        assert_eq!(&out[1..], &expected[..], "length {n}");
        assert_eq!(read_short_len(&out, 1), Some((n, out.len())));
    }
    let mut out = vec![1, 2];
    assert!(!write_short_len(&mut out, 0x10000));
    assert_eq!(out, vec![1, 2]);
}

#[test]
fn lengths_are_read_as_short_vec_reads_them() {
    let thirds = [0u8, 1, 2, 3, 4, 0x7f, 0x80, 0xff];
    for b0 in 0..=255u8 {
        for b1 in 0..=255u8 {
            for b2 in thirds {
                let bytes = [b0, b1, b2];
                let expected = solana_short_vec::decode_shortu16_len(&bytes).ok();
                assert_eq!(read_short_len(&bytes, 0), expected, "bytes {bytes:?}");
            }
        }
    }
    assert_eq!(read_short_len(&[], 0), None);
    assert_eq!(read_short_len(&[0x80], 0), None);
    assert_eq!(read_short_len(&[0x80, 0x80], 0), None);
    assert_eq!(read_short_len(&[5], 1), None);
    assert_eq!(read_short_len(&[0xff, 0xff, 0x03], 0), Some((0xffff, 3)));
    assert_eq!(read_short_len(&[0x80, 0x01], 0), Some((128, 2)));
}

#[test]
fn legacy_message_starts_with_the_number_of_required_signatures() {
    let message = legacy_message();
    let bytes = VersionedMessage::Legacy(message.clone()).serialize().unwrap();
    assert_eq!(bytes[0], 2);
    assert_eq!(bytes[0] & 0x80, 0);
    let expected =
        bincode::serialize(&solana_message::VersionedMessage::Legacy(outside_legacy(&message)))
            .unwrap();
    assert_eq!(bytes, expected);
    assert_eq!(VersionedMessage::deserialize(&bytes), Ok(VersionedMessage::Legacy(message)));
}

#[test]
fn version_0_message_starts_with_0x80() {
    let message = v0_message();
    let bytes = VersionedMessage::V0(message.clone()).serialize().unwrap();
    assert_eq!(bytes[0], 0x80);
    let expected =
        bincode::serialize(&solana_message::VersionedMessage::V0(outside_v0(&message))).unwrap();
    assert_eq!(bytes, expected);
    assert_eq!(VersionedMessage::deserialize(&bytes), Ok(VersionedMessage::V0(message)));
}

#[test]
fn off_chain_prefix_is_refused() {
    let mut bytes = VersionedMessage::V0(v0_message()).serialize().unwrap();
    bytes[0] = 0xff;
    assert_eq!(VersionedMessage::deserialize(&bytes), Err(WireError::OffChainMessage));
    assert_eq!(VersionedMessage::deserialize(&[0xff]), Err(WireError::OffChainMessage));
    assert!(bincode::deserialize::<solana_message::VersionedMessage>(&bytes).is_err());
}

#[test]
fn unknown_versions_are_refused() {
    let mut bytes = VersionedMessage::V0(v0_message()).serialize().unwrap();
    for version in 1..127u8 {
        bytes[0] = 0x80 | version;
        assert_eq!(
            VersionedMessage::deserialize(&bytes),
            Err(WireError::UnsupportedVersion(version))
        );
    }
}

#[test]
fn truncated_messages_are_malformed() {
    let bytes = VersionedMessage::V0(v0_message()).serialize().unwrap();
    for cut in 0..bytes.len() {
        assert_eq!(
            VersionedMessage::deserialize(&bytes[..cut]),
            Err(WireError::Malformed),
            "cut at {cut}"
        );
    }
    let bytes = VersionedMessage::Legacy(legacy_message()).serialize().unwrap();
    for cut in 0..bytes.len() {
        assert_eq!(VersionedMessage::deserialize(&bytes[..cut]), Err(WireError::Malformed));
    }
}

#[test]
fn bytes_behind_a_message_are_ignored() {
    let message = legacy_message();
    let mut bytes = VersionedMessage::Legacy(message.clone()).serialize().unwrap();
    bytes.extend_from_slice(&[1, 2, 3]);
    assert_eq!(VersionedMessage::deserialize(&bytes), Ok(VersionedMessage::Legacy(message)));
}

#[test]
fn message_with_too_long_a_list_is_not_written() {
    let mut message = legacy_message();
    message.instructions[0].data = vec![0; 0x10000];
    assert_eq!(VersionedMessage::Legacy(message).serialize(), None);
    let mut message = legacy_message();
    message.instructions[0].data = vec![0; 0xffff];
    assert!(VersionedMessage::Legacy(message).serialize().is_some());
    let mut message = v0_message();
    message.address_table_lookups[0].writable_indexes = vec![0; 0x10000];
    assert_eq!(VersionedMessage::V0(message).serialize(), None);
}

#[test]
fn transactions_are_read_as_bincode_writes_them() {
    let message = legacy_message();
    let outside = solana_transaction::versioned::VersionedTransaction {
        signatures: vec![
            solana_signature::Signature::from(signature(1)),
            solana_signature::Signature::from(signature(2)),
        ],
        message: solana_message::VersionedMessage::Legacy(outside_legacy(&message)),
    };
    let bytes = bincode::serialize(&outside).unwrap();
    assert_eq!(
        VersionedTransaction::deserialize(&bytes),
        Ok(VersionedTransaction {
            signatures: vec![signature(1), signature(2)],
            message: VersionedMessage::Legacy(message.clone()),
        })
    );
    assert_eq!(
        Transaction::deserialize(&bytes),
        Some(Transaction { signatures: vec![signature(1), signature(2)], message })
    );

    let message = v0_message();
    let outside = solana_transaction::versioned::VersionedTransaction {
        signatures: vec![solana_signature::Signature::from(signature(3))],
        message: solana_message::VersionedMessage::V0(outside_v0(&message)),
    };
    let bytes = bincode::serialize(&outside).unwrap();
    assert_eq!(
        VersionedTransaction::deserialize(&bytes),
        Ok(VersionedTransaction {
            signatures: vec![signature(3)],
            message: VersionedMessage::V0(message),
        })
    );
    assert_eq!(VersionedTransaction::deserialize(&[]), Err(WireError::Malformed));
    assert_eq!(Transaction::deserialize(&[1]), None);
}

#[test]
fn default_message_is_an_empty_legacy_message() {
    let message = VersionedMessage::default();
    assert_eq!(message, VersionedMessage::Legacy(Message::default()));
    assert!(!message.is_v0());
    assert!(message.static_account_keys().is_empty());
    assert!(message.instructions().is_empty());
    let mut expected = vec![0u8, 0, 0, 0];
    expected.extend([0u8; 32]);
    expected.push(0);
    assert_eq!(message.serialize(), Some(expected));
}
