use ledger_gateway::cell::{
    decoded_or_corrupt, deserialize_bincode_cell_data, deserialize_protobuf_cell_data,
    deserialize_protobuf_or_bincode_cell_data, find_cell, object_name, CellData, Error,
};
use ledger_gateway::compression::compress_best;

fn plain(bytes: &[u8]) -> Vec<u8> {
    let mut cell = vec![0u8];
    cell.extend_from_slice(bytes);
    cell
}

#[test]
fn protobuf_cell_is_preferred() {
    let row = vec![
        ("x:bin".to_string(), plain(b"legacy")),
        ("x:proto".to_string(), plain(b"modern")),
    ];
    assert_eq!(
        deserialize_protobuf_or_bincode_cell_data(&row, "blocks", "00"),
        Ok(CellData::Protobuf(b"modern".to_vec()))
    );
}

#[test]
fn legacy_cell_is_taken_where_there_is_no_protobuf_cell() {
    let row = vec![("x:bin".to_string(), compress_best(b"legacy").unwrap())];
    assert_eq!(
        deserialize_protobuf_or_bincode_cell_data(&row, "tx", "sig"),
        Ok(CellData::Bincode(b"legacy".to_vec()))
    );
}

#[test]
fn missing_cells_give_object_not_found() {
    let row = vec![("y:other".to_string(), plain(b"x"))];
    assert_eq!(
        deserialize_protobuf_or_bincode_cell_data(&row, "tx", "abc"),
        Err(Error::ObjectNotFound("tx/abc".to_string()))
    );
    assert_eq!(
        deserialize_protobuf_cell_data(&[], "blocks", "k"),
        Err(Error::ObjectNotFound("blocks/k".to_string()))
    );
    assert_eq!(
        deserialize_bincode_cell_data(&[], "blocks", "k"),
        Err(Error::ObjectNotFound("blocks/k".to_string()))
    );
}

#[test]
fn broken_protobuf_cell_is_corrupt_even_beside_a_legacy_cell() {
    let row = vec![
        ("x:proto".to_string(), vec![9, 9, 9]),
        ("x:bin".to_string(), plain(b"legacy")),
    ];
    assert_eq!(
        deserialize_protobuf_or_bincode_cell_data(&row, "blocks", "0a"),
        Err(Error::ObjectCorrupt("blocks/0a".to_string()))
    );
    let row = vec![("x:bin".to_string(), vec![])];
    assert_eq!(
        deserialize_protobuf_or_bincode_cell_data(&row, "tx", "s"),
        Err(Error::ObjectCorrupt("tx/s".to_string()))
    );
}

#[test]
fn first_cell_of_a_name_wins() {
    let row = vec![
        ("x:proto".to_string(), vec![1]),
        ("x:proto".to_string(), vec![2]),
    ];
    assert_eq!(find_cell(&row, "x:proto"), Some(&vec![1]));
    assert_eq!(find_cell(&row, "x:bin"), None);
    assert_eq!(find_cell(&[], "x:bin"), None);
}

#[test]
fn object_name_is_table_slash_key() {
    assert_eq!(object_name("tx-by-addr", "abc/ff"), "tx-by-addr/abc/ff");
    assert_eq!(object_name("", ""), "/");
}

#[test]
fn decoder_outcome_becomes_record_or_corrupt() {
    assert_eq!(decoded_or_corrupt(Some(5u8), "tx", "k"), Ok(5u8));
    assert_eq!(
        decoded_or_corrupt::<u8>(None, "tx", "k"),
        Err(Error::ObjectCorrupt("tx/k".to_string()))
    );
}
