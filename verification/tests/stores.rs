use ledger_gateway::bigtable::{
    access_scope, get_bincode_cells, get_protobuf_or_bincode_cells, row_exists, single_row,
    timed_out, BigTable, CellChunk, CellFilter, RowAssembler, RowFilter, RowStatus, Scope,
};
use ledger_gateway::cell::{CellData, Error};
use ledger_gateway::hbase::{
    get_bincode_cell, get_last_row_key, get_protobuf_or_bincode_cell, get_row_data, get_row_keys,
    last_row_key, single_row_data, text_bytes, HBaseConnection, ScanCollector, ScanStep,
};

fn chunk(
    row_key: &[u8],
    qualifier: Option<&[u8]>,
    timestamp_micros: i64,
    value: &[u8],
    row_status: Option<RowStatus>,
) -> CellChunk {
    CellChunk {
        row_key: row_key.to_vec(),
        qualifier: qualifier.map(|q| q.to_vec()),
        timestamp_micros,
        value: value.to_vec(),
        row_status,
    }
}

fn assemble(chunks: Vec<CellChunk>) -> Vec<(String, Vec<(String, Vec<u8>)>)> {
    RowAssembler::new().push_response(chunks, 0, None).unwrap().into_rows()
}

fn row(n: usize) -> (String, Vec<(String, Vec<u8>)>) {
    (format!("row{n}"), vec![("x:bin".to_string(), vec![n as u8])])
}

#[test]
fn cells_are_put_together_from_chunks() {
    let rows = assemble(vec![
        chunk(b"key1", Some(b"proto"), 5, b"he", None),
        chunk(b"", None, 0, b"llo", None),
        chunk(b"", Some(b"bin"), 5, b"x", Some(RowStatus::CommitRow(true))),
        chunk(b"key2", Some(b"proto"), 1, b"", Some(RowStatus::CommitRow(true))),
    ]);
    assert_eq!(
        rows,
        vec![
            (
                "key1".to_string(),
                vec![("proto".to_string(), b"hello".to_vec()), ("bin".to_string(), b"x".to_vec())]
            ),
            ("key2".to_string(), vec![("proto".to_string(), vec![])]),
        ]
    );
}

#[test]
fn older_versions_of_a_cell_are_passed_over() {
    let rows = assemble(vec![
        chunk(b"k", Some(b"q"), 10, b"new", None),
        chunk(b"", None, 9, b"old", None),
        chunk(b"", None, 0, b"older", Some(RowStatus::CommitRow(true))),
    ]);
    assert_eq!(rows, vec![("k".to_string(), vec![("q".to_string(), b"new".to_vec())])]);
    let rows = assemble(vec![
        chunk(b"k", Some(b"q"), 10, b"old", None),
        chunk(b"", None, 11, b"new", None),
        chunk(b"", None, 0, b"er", Some(RowStatus::CommitRow(true))),
    ]);
    assert_eq!(rows, vec![("k".to_string(), vec![("q".to_string(), b"newer".to_vec())])]);
    let rows = assemble(vec![
        chunk(b"k", Some(b"q"), 10, b"a", None),
        chunk(b"", None, 10, b"b", Some(RowStatus::CommitRow(true))),
    ]);
    assert_eq!(rows, vec![("k".to_string(), vec![("q".to_string(), b"b".to_vec())])]);
}

#[test]
fn reset_rows_and_rows_without_text_keys_are_dropped() {
    let rows = assemble(vec![
        chunk(b"gone", Some(b"q"), 1, b"a", Some(RowStatus::ResetRow(true))),
        chunk(&[0xff, 0xfe], Some(b"q"), 1, b"b", Some(RowStatus::CommitRow(true))),
        chunk(b"kept", Some(&[0xff]), 1, b"c", None),
        chunk(b"", Some(b"q"), 1, b"d", Some(RowStatus::CommitRow(true))),
    ]);
    assert_eq!(rows, vec![("kept".to_string(), vec![("q".to_string(), b"cd".to_vec())])]);
    assert!(assemble(vec![chunk(b"open", Some(b"q"), 1, b"a", None)]).is_empty());
    assert!(assemble(vec![]).is_empty());
}

#[test]
fn chunks_are_taken_one_by_one_across_messages() {
    let assembler = RowAssembler::new()
        .push_chunk(chunk(b"k", Some(b"q"), 1, b"a", None))
        .push_response(vec![chunk(b"", None, 0, b"b", None)], 10, Some(10))
        .unwrap()
        .push_chunk(chunk(b"", None, 0, b"c", Some(RowStatus::CommitRow(false))));
    assert_eq!(
        assembler.into_rows(),
        vec![("k".to_string(), vec![("q".to_string(), b"abc".to_vec())])]
    );
}

#[test]
fn late_stream_times_out() {
    assert!(timed_out(11, Some(10)));
    assert!(!timed_out(10, Some(10)));
    assert!(!timed_out(u128::MAX, None));
    let late = RowAssembler::new().push_response(vec![], 11, Some(10));
    assert!(matches!(late, Err(Error::Timeout)));
}

#[test]
fn requests_of_the_cloud_store() {
    let client = BigTable::new("proj", "inst", "default", Some(5));
    assert_eq!(client.table_prefix, "projects/proj/instances/inst/tables/");
    assert_eq!(client.table("blocks"), "projects/proj/instances/inst/tables/blocks");
    let emulator = BigTable::new_for_emulator("inst", "p", None);
    assert_eq!(emulator.table_prefix, "projects/emulator/instances/inst/tables/");
    assert_eq!(emulator.app_profile_id, "p");

    assert_eq!(client.get_row_keys("blocks", &None, &None, 0), None);
    assert_eq!(client.get_row_data("blocks", &None, &None, 0), None);
    let request =
        client.get_row_keys("blocks", &Some("a".to_string()), &Some("b".to_string()), 7).unwrap();
    assert_eq!(request.table_name, "projects/proj/instances/inst/tables/blocks");
    assert_eq!(request.app_profile_id, "default");
    assert_eq!(request.rows_limit, 7);
    assert!(request.row_keys.is_empty());
    assert_eq!(request.row_ranges.len(), 1);
    assert_eq!(request.row_ranges[0].start_key_closed, Some(b"a".to_vec()));
    assert_eq!(request.row_ranges[0].end_key_closed, Some(b"b".to_vec()));
    assert_eq!(
        request.filter,
        RowFilter::Chain(vec![
            CellFilter::CellsPerRowLimit(1),
            CellFilter::CellsPerColumnLimit(1),
            CellFilter::StripValueTransformer(true),
        ])
    );
    let request = client.get_row_data("tx", &None, &Some("z".to_string()), -1).unwrap();
    assert_eq!(request.rows_limit, -1);
    assert_eq!(request.row_ranges[0].start_key_closed, None);
    assert_eq!(request.filter, RowFilter::Single(CellFilter::CellsPerColumnLimit(1)));

    let request = client.row_key_exists("tx", "k".to_string());
    assert_eq!(request.rows_limit, 1);
    assert_eq!(request.row_keys, vec![b"k".to_vec()]);
    assert!(request.row_ranges.is_empty());
    assert_eq!(request.filter, RowFilter::Single(CellFilter::StripValueTransformer(true)));
    let request = client.get_single_row_data("tx", "k".to_string());
    assert_eq!(request.rows_limit, 1);
    assert_eq!(request.row_keys, vec![b"k".to_vec()]);
    assert_eq!(request.filter, RowFilter::Single(CellFilter::CellsPerColumnLimit(1)));
    let request = client.get_multi_row_data("tx", &vec!["a".to_string(), "b".to_string()]);
    assert_eq!(request.rows_limit, 0);
    assert_eq!(request.row_keys, vec![b"a".to_vec(), b"b".to_vec()]);

    assert_eq!(access_scope(true), Scope::BigTableDataReadOnly);
    assert_eq!(access_scope(false), Scope::BigTableData);
    assert!(!row_exists(&vec![]));
    assert!(row_exists(&vec![row(1)]));
    assert_eq!(single_row(vec![]), Err(Error::RowNotFound));
    assert_eq!(single_row(vec![row(1), row(2)]), Ok(row(1).1));
    let config = ledger_gateway::bigtable::LedgerStorageConfig::default();
    assert!(config.read_only);
    assert_eq!(config.instance_name, "solana-ledger");
    assert_eq!(config.app_profile_id, "default");
}

#[test]
fn scans_of_the_thrift_store() {
    assert_eq!(get_row_keys(&None, &None, 0, false), None);
    assert_eq!(get_row_data(&None, &None, 0), None);
    let scan = get_row_keys(&Some("a".to_string()), &None, 5, true).unwrap();
    assert_eq!(scan.start_row, Some(b"a".to_vec()));
    assert_eq!(scan.stop_row, None);
    assert_eq!(scan.columns, Some(vec![b"x".to_vec()]));
    assert_eq!(scan.batch_size, Some(5));
    assert_eq!(scan.caching, Some(5));
    assert_eq!(scan.reversed, Some(true));
    assert_eq!(scan.filter_string, Some(b"KeyOnlyFilter()".to_vec()));
    let scan = get_row_data(&None, &Some("z".to_string()), 1 << 40).unwrap();
    assert_eq!(scan.stop_row, Some(b"z".to_vec()));
    assert_eq!(scan.batch_size, Some(0));
    assert_eq!(scan.caching, None);
    assert_eq!(scan.reversed, None);
    assert_eq!(scan.filter_string, Some(b"ColumnPaginationFilter(1,0)".to_vec()));
    let scan = get_row_data(&None, &None, (1 << 32) + 7).unwrap();
    assert_eq!(scan.batch_size, Some(7));
    let last = get_last_row_key();
    assert_eq!(last.reversed, Some(true));
    assert_eq!(last.batch_size, Some(1));
    assert_eq!(last.start_row, None);
    assert_eq!(last_row_key(vec![]), Err(Error::RowNotFound));
    assert_eq!(last_row_key(vec!["z".to_string(), "y".to_string()]), Ok("z".to_string()));
    assert_eq!(single_row_data(vec![]), Err(Error::RowNotFound));
    assert_eq!(single_row_data(vec![row(3).1]), Ok(row(3).1));
    assert_eq!(text_bytes("é"), vec![0xc3, 0xa9]);
    let connection = HBaseConnection::new("host:9090", true, Some(3));
    assert_eq!(connection.address, "host:9090");
    assert_eq!(connection.timeout, Some(3));
}

#[test]
fn batches_are_gathered_up_to_the_limit() {
    let mut collector = ScanCollector::new(3);
    assert!(!collector.is_full());
    assert_eq!(collector.absorb(vec![row(1), row(2)]), ScanStep::More);
    assert_eq!(collector.absorb(vec![row(3), row(4)]), ScanStep::Close);
    assert!(collector.is_full());
    assert_eq!(
        collector.into_keys(),
        vec!["row1".to_string(), "row2".to_string(), "row3".to_string()]
    );

    let mut collector = ScanCollector::new(10);
    assert_eq!(collector.absorb(vec![row(1)]), ScanStep::More);
    assert_eq!(collector.absorb(vec![]), ScanStep::Close);
    assert_eq!(collector.into_rows(), vec![row(1)]);

    let mut collector = ScanCollector::new(2);
    assert_eq!(collector.absorb(vec![row(1), row(2), row(3)]), ScanStep::Close);
    assert_eq!(collector.rows.len(), 2);

    let mut collector = ScanCollector::new(-1);
    assert_eq!(collector.absorb(vec![row(1), row(2)]), ScanStep::Close);
    assert_eq!(collector.rows.len(), 1);
}

#[test]
fn cells_of_several_rows_are_read_row_by_row() {
    let rows = vec![
        ("a".to_string(), vec![("x:bin".to_string(), vec![0, 1, 2])]),
        ("b".to_string(), vec![("x:proto".to_string(), vec![0, 3])]),
        ("c".to_string(), vec![("x:bin".to_string(), vec![])]),
    ];
    assert_eq!(
        get_bincode_cells(&rows, "tx"),
        vec![
            ("a".to_string(), Ok(vec![1, 2])),
            ("b".to_string(), Err(Error::ObjectNotFound("tx/b".to_string()))),
            ("c".to_string(), Err(Error::ObjectCorrupt("tx/c".to_string()))),
        ]
    );
    assert_eq!(
        get_protobuf_or_bincode_cells(&rows, "tx"),
        vec![
            ("a".to_string(), Ok(CellData::Bincode(vec![1, 2]))),
            ("b".to_string(), Ok(CellData::Protobuf(vec![3]))),
            ("c".to_string(), Err(Error::ObjectCorrupt("tx/c".to_string()))),
        ]
    );
    assert!(get_bincode_cells(&vec![], "tx").is_empty());
}

#[test]
fn single_cells_are_unframed_under_their_qualifier() {
    let row = vec![("x:bin".to_string(), vec![0, 7, 8]), ("x:proto".to_string(), vec![0, 9])];
    assert_eq!(get_bincode_cell(Ok(row.clone()), "tx", "k"), Ok(vec![7, 8]));
    assert_eq!(
        get_protobuf_or_bincode_cell(Ok(row.clone()), "blocks", "k"),
        Ok(CellData::Protobuf(vec![9]))
    );
    let legacy = vec![("x:bin".to_string(), vec![0, 7, 8])];
    assert_eq!(
        get_protobuf_or_bincode_cell(Ok(legacy.clone()), "blocks", "k"),
        Ok(CellData::Bincode(vec![7, 8]))
    );
    assert_eq!(get_bincode_cell(Err(Error::RowNotFound), "tx", "k"), Err(Error::RowNotFound));
    assert_eq!(
        get_protobuf_or_bincode_cell(Err(Error::Timeout), "tx", "k"),
        Err(Error::Timeout)
    );
    assert_eq!(
        get_bincode_cell(Ok(vec![("x:proto".to_string(), vec![0, 9])]), "tx", "k"),
        Err(Error::ObjectNotFound("tx/k".to_string()))
    );
    assert_eq!(
        get_bincode_cell(Ok(vec![("x:bin".to_string(), vec![9, 9])]), "tx", "k"),
        Err(Error::ObjectCorrupt("tx/k".to_string()))
    );
    assert_eq!(
        ledger_gateway::bigtable::get_bincode_cell(vec![("k".to_string(), legacy.clone())], "tx", "k"),
        Ok(vec![7, 8])
    );
    assert_eq!(
        ledger_gateway::bigtable::get_bincode_cell(vec![], "tx", "k"),
        Err(Error::RowNotFound)
    );
    assert_eq!(
        ledger_gateway::bigtable::get_protobuf_or_bincode_cell(vec![("k".to_string(), row)], "tx", "k"),
        Ok(CellData::Protobuf(vec![9]))
    );
    assert_eq!(
        ledger_gateway::bigtable::get_protobuf_or_bincode_cell(vec![], "tx", "k"),
        Err(Error::RowNotFound)
    );
}
