//! The thrift store: what is asked of a scanner, how the batches that it
//! hands out are gathered, and the mutations that a batch of cells makes.

use vstd::prelude::*;
use vstd::string::*;

use crate::cell::{Error, ErrorView, RowData, RowKey};
use crate::compression::{store, stored};

verus! {

/// The column family of every cell.
pub const COLUMN_FAMILY: &'static str = "x";

/// The filter of a scan that wants keys only.
pub const KEY_ONLY_FILTER: &'static str = "KeyOnlyFilter()";

/// The filter of a scan that wants the latest cell of each column.
pub const LATEST_CELL_FILTER: &'static str = "ColumnPaginationFilter(1,0)";

/// Where the thrift store is reached. The time to wait is in seconds.
#[derive(Clone, Debug, PartialEq, Eq)]
pub struct HBaseConnection {
    pub address: String,
    pub timeout: Option<u64>,
}

impl HBaseConnection {
    /// The place of a store. Readers and writers are connected alike.
    pub fn new(address: &str, _read_only: bool, timeout: Option<u64>) -> (connection:
        HBaseConnection)
        ensures
            connection.address@ == address@,
            connection.timeout == timeout,
    {
        HBaseConnection { address: String::from_str(address), timeout }
    }
}

/// What a scanner is opened with.
#[derive(Clone, Debug, PartialEq, Eq)]
pub struct Scan {
    pub start_row: Option<Vec<u8>>,
    pub stop_row: Option<Vec<u8>>,
    pub columns: Option<Vec<Vec<u8>>>,
    pub batch_size: Option<i32>,
    pub caching: Option<i32>,
    pub reversed: Option<bool>,
    pub filter_string: Option<Vec<u8>>,
}

pub struct ScanView {
    pub start_row: Option<Seq<u8>>,
    pub stop_row: Option<Seq<u8>>,
    pub columns: Option<Seq<Seq<u8>>>,
    pub batch_size: Option<i32>,
    pub caching: Option<i32>,
    pub reversed: Option<bool>,
    pub filter_string: Option<Seq<u8>>,
}

/// Bytes, where there are any.
pub open spec fn option_bytes(bytes: Option<Vec<u8>>) -> Option<Seq<u8>> {
    match bytes {
        Some(b) => Some(b@),
        None => None,
    }
}

impl View for Scan {
    type V = ScanView;

    open spec fn view(&self) -> ScanView {
        ScanView {
            start_row: option_bytes(self.start_row),
            stop_row: option_bytes(self.stop_row),
            columns: match self.columns {
                Some(c) => Some(Seq::new(c@.len(), |i: int| c@[i]@)),
                None => None,
            },
            batch_size: self.batch_size,
            caching: self.caching,
            reversed: self.reversed,
            filter_string: option_bytes(self.filter_string),
        }
    }
}

/// What is done once a batch of a scan has been gathered.
#[derive(Clone, Copy, Debug, PartialEq, Eq, Structural)]
pub enum ScanStep {
    /// Ask the scanner for the next batch.
    More,
    /// Close the scanner: it is at its end, or enough rows were gathered.
    Close,
}

/// The rows that a scan has gathered so far.
#[derive(Clone, Debug)]
pub struct ScanCollector {
    pub rows: Vec<(RowKey, RowData)>,
    pub rows_limit: i64,
}

/// A write to one column of a row, with the fields that the store takes.
#[derive(Clone, Debug, PartialEq, Eq)]
pub struct Mutation {
    pub is_delete: Option<bool>,
    pub column: Option<Vec<u8>>,
    pub value: Option<Vec<u8>>,
    pub write_to_wal: Option<bool>,
}

pub struct MutationView {
    pub is_delete: Option<bool>,
    pub column: Option<Seq<u8>>,
    pub value: Option<Seq<u8>>,
    pub write_to_wal: Option<bool>,
}

impl View for Mutation {
    type V = MutationView;

    open spec fn view(&self) -> MutationView {
        MutationView {
            is_delete: self.is_delete,
            column: option_bytes(self.column),
            value: option_bytes(self.value),
            write_to_wal: self.write_to_wal,
        }
    }
}

/// The writes to one row.
#[derive(Clone, Debug, PartialEq, Eq)]
pub struct BatchMutation {
    pub row: Vec<u8>,
    pub mutations: Vec<Mutation>,
}

pub struct BatchMutationView {
    pub row: Seq<u8>,
    pub mutations: Seq<MutationView>,
}

impl View for BatchMutation {
    type V = BatchMutationView;

    open spec fn view(&self) -> BatchMutationView {
        BatchMutationView {
            row: self.row@,
            mutations: Seq::new(self.mutations@.len(), |i: int| self.mutations@[i]@),
        }
    }
}

/// The bytes of a text.
pub open spec fn utf8(text: Seq<char>) -> Seq<u8> {
    vstd::utf8::encode_utf8(text)
}

/// The bytes of a text, where there is one.
pub open spec fn option_utf8(text: Option<String>) -> Option<Seq<u8>> {
    match text {
        Some(t) => Some(utf8(t@)),
        None => None,
    }
}

/// The number of rows to cache, as the store takes it: the limit, if it
/// fits in 32 bits.
pub open spec fn caching_of(rows_limit: i64) -> Option<i32> {
    if i32::MIN <= rows_limit <= i32::MAX {
        Some(rows_limit as i32)
    } else {
        None
    }
}

/// The scan that lists row keys between two keys, forwards or backwards.
pub open spec fn key_scan(
    start_at: Option<String>,
    end_at: Option<String>,
    rows_limit: i64,
    reversed: bool,
) -> ScanView {
    ScanView {
        start_row: option_utf8(start_at),
        stop_row: option_utf8(end_at),
        columns: Some(seq![utf8(COLUMN_FAMILY@)]),
        batch_size: Some(rows_limit as i32),
        caching: caching_of(rows_limit),
        reversed: Some(reversed),
        filter_string: Some(utf8(KEY_ONLY_FILTER@)),
    }
}

/// The scan that reads the latest cells of the rows between two keys.
pub open spec fn data_scan(start_at: Option<String>, end_at: Option<String>, rows_limit: i64) -> ScanView {
    ScanView {
        start_row: option_utf8(start_at),
        stop_row: option_utf8(end_at),
        columns: Some(seq![utf8(COLUMN_FAMILY@)]),
        batch_size: Some(rows_limit as i32),
        caching: caching_of(rows_limit),
        reversed: None,
        filter_string: Some(utf8(LATEST_CELL_FILTER@)),
    }
}

/// Whether a count of rows has reached a limit.
pub open spec fn reached(count: int, rows_limit: i64) -> bool {
    count >= rows_limit
}

/// How many rows of a batch are taken when `count` were gathered before:
/// all of them, but no more than are missing, and at least one.
pub open spec fn taken_of(batch_len: int, count: int, rows_limit: i64) -> int {
    if batch_len == 0 {
        0
    } else if rows_limit - count <= 1 {
        1
    } else if batch_len <= rows_limit - count {
        batch_len
    } else {
        rows_limit - count
    }
}

/// The bytes of a text.
pub fn text_bytes(text: &str) -> (bytes: Vec<u8>)
    ensures
        bytes@ == utf8(text@),
{
    text.as_bytes_vec()
}

/// The bytes of a text, where there is one.
fn optional_bytes(text: &Option<String>) -> (bytes: Option<Vec<u8>>)
    ensures
        option_bytes(bytes) == option_utf8(*text),
{
    match text {
        Some(t) => Some(text_bytes(t.as_str())),
        None => None,
    }
}

/// The limit of a scan, in the 32 bits that the store takes.
fn batch_size_of(rows_limit: i64) -> (size: i32)
    ensures
        size == rows_limit as i32,
{
    #[verifier::truncate]
    (rows_limit as i32)
}

/// The number of rows to cache.
fn caching(rows_limit: i64) -> (size: Option<i32>)
    ensures
        size == caching_of(rows_limit),
{
    if -0x8000_0000 <= rows_limit && rows_limit <= 0x7fff_ffff {
        Some(rows_limit as i32)
    } else {
        None
    }
}

/// The one column family as a list of columns.
fn family_columns() -> (columns: Vec<Vec<u8>>)
    ensures
        Seq::new(columns@.len(), |i: int| columns@[i]@) == seq![utf8(COLUMN_FAMILY@)],
{
    let mut columns: Vec<Vec<u8>> = Vec::new();
    columns.push(text_bytes(COLUMN_FAMILY));
    assert(Seq::new(columns@.len(), |i: int| columns@[i]@) =~= seq![utf8(COLUMN_FAMILY@)]);
    columns
}

/// The scan that lists the row keys of a table in the order of the keys,
/// from `start_at` to `end_at` where they are given. No scan is made for a
/// limit of zero rows: the answer is then the empty list.
pub fn get_row_keys(
    start_at: &Option<RowKey>,
    end_at: &Option<RowKey>,
    rows_limit: i64,
    reversed: bool,
) -> (scan: Option<Scan>)
    ensures
        rows_limit == 0 <==> scan is None,
        scan matches Some(s) ==> s@ == key_scan(*start_at, *end_at, rows_limit, reversed),
{
    if rows_limit == 0 {
        return None;
    }
    Some(
        Scan {
            start_row: optional_bytes(start_at),
            stop_row: optional_bytes(end_at),
            columns: Some(family_columns()),
            batch_size: Some(batch_size_of(rows_limit)),
            caching: caching(rows_limit),
            reversed: Some(reversed),
            filter_string: Some(text_bytes(KEY_ONLY_FILTER)),
        },
    )
}

/// The scan that reads the latest cells of the rows of a table from
/// `start_at` to `end_at` where they are given. No scan is made for a limit
/// of zero rows.
pub fn get_row_data(start_at: &Option<RowKey>, end_at: &Option<RowKey>, rows_limit: i64) -> (scan:
    Option<Scan>)
    ensures
        rows_limit == 0 <==> scan is None,
        scan matches Some(s) ==> s@ == data_scan(*start_at, *end_at, rows_limit),
{
    if rows_limit == 0 {
        return None;
    }
    Some(
        Scan {
            start_row: optional_bytes(start_at),
            stop_row: optional_bytes(end_at),
            columns: Some(family_columns()),
            batch_size: Some(batch_size_of(rows_limit)),
            caching: caching(rows_limit),
            reversed: None,
            filter_string: Some(text_bytes(LATEST_CELL_FILTER)),
        },
    )
}

/// The scan that finds the last row key of a table: backwards, keys only,
/// one row.
pub fn get_last_row_key() -> (scan: Scan)
    ensures
        scan@ == key_scan(None, None, 1, true),
{
    match get_row_keys(&None, &None, 1, true) {
        Some(scan) => scan,
        None => Scan {
            start_row: None,
            stop_row: None,
            columns: None,
            batch_size: None,
            caching: None,
            reversed: None,
            filter_string: None,
        },
    }
}

/// The last row key of a table, from what the scan for it gave.
pub fn last_row_key(row_keys: Vec<RowKey>) -> (key: Result<RowKey, Error>)
    ensures
        match key {
            Ok(k) => row_keys@.len() > 0 && k == row_keys@[0],
            Err(e) => row_keys@.len() == 0 && e@ == ErrorView::RowNotFound,
        },
{
    let mut row_keys = row_keys;
    if row_keys.len() == 0 {
        Err(Error::RowNotFound)
    } else {
        Ok(row_keys.swap_remove(0))
    }
}

/// The cells of the first row that a point read gave, or `RowNotFound`
/// where it gave none.
pub fn single_row_data(rows: Vec<RowData>) -> (row: Result<RowData, Error>)
    ensures
        match row {
            Ok(r) => rows@.len() > 0 && r == rows@[0],
            Err(e) => rows@.len() == 0 && e@ == ErrorView::RowNotFound,
        },
{
    let mut rows = rows;
    if rows.len() == 0 {
        Err(Error::RowNotFound)
    } else {
        Ok(rows.swap_remove(0))
    }
}

/// The legacy binary record of the row that a point read gave: its plain
/// bytes, or the failure of the read.
pub fn get_bincode_cell(read: Result<RowData, Error>, table: &str, key: &str) -> (payload: Result<
    Vec<u8>,
    Error,
>)
    ensures
        match read {
            Err(e) => payload matches Err(f) && f == e,
            Ok(row) => crate::cell::named_payload(
                row@,
                crate::cell::bin_cell(),
                crate::cell::object_id(table@, key@),
            ) == match payload {
                Ok(p) => Ok::<Seq<u8>, ErrorView>(p@),
                Err(e) => Err(e@),
            },
        },
{
    match read {
        Err(e) => Err(e),
        Ok(row) => crate::cell::deserialize_bincode_cell_data(row.as_slice(), table, key),
    }
}

/// The record of the row that a point read gave, as plain bytes in their
/// encoding, or the failure of the read.
pub fn get_protobuf_or_bincode_cell(read: Result<RowData, Error>, table: &str, key: &str) -> (payload:
    Result<crate::cell::CellData<Vec<u8>, Vec<u8>>, Error>)
    ensures
        match read {
            Err(e) => payload matches Err(f) && f == e,
            Ok(row) => crate::cell::record_payload(row@, crate::cell::object_id(table@, key@))
                == match payload {
                Ok(p) => Ok::<crate::cell::CellData<Seq<u8>, Seq<u8>>, ErrorView>(
                    crate::cell::payload_view(p),
                ),
                Err(e) => Err(e@),
            },
        },
{
    match read {
        Err(e) => Err(e),
        Ok(row) => crate::cell::deserialize_protobuf_or_bincode_cell_data(
            row.as_slice(),
            table,
            key,
        ),
    }
}

impl ScanCollector {
    /// Nothing gathered yet.
    pub fn new(rows_limit: i64) -> (collector: ScanCollector)
        ensures
            collector.rows@.len() == 0,
            collector.rows_limit == rows_limit,
    {
        ScanCollector { rows: Vec::new(), rows_limit }
    }

    /// Whether enough rows were gathered.
    pub fn is_full(&self) -> (full: bool)
        ensures
            full == reached(self.rows@.len() as int, self.rows_limit),
    {
        if self.rows_limit <= 0 {
            true
        } else {
            self.rows.len() as u64 >= self.rows_limit as u64
        }
    }

    /// Takes the rows of a batch until enough are gathered, and tells what
    /// to do next: an empty batch ends the scan, and so does the row that
    /// fills the limit.
    pub fn absorb(&mut self, batch: Vec<(RowKey, RowData)>) -> (step: ScanStep)
        ensures
            final(self).rows_limit == old(self).rows_limit,
            final(self).rows@ == old(self).rows@ + batch@.subrange(
                0,
                taken_of(batch@.len() as int, old(self).rows@.len() as int, old(self).rows_limit),
            ),
            step == if batch@.len() == 0 || reached(
                final(self).rows@.len() as int,
                old(self).rows_limit,
            ) {
                ScanStep::Close
            } else {
                ScanStep::More
            },
    {
        let ghost all = batch@;
        let ghost before = self.rows@;
        if batch.len() == 0 {
            assert(self.rows@ =~= before + all.subrange(0, 0));
            return ScanStep::Close;
        }
        let batch_len = batch.len();
        let mut rest = crate::seqs::reversed(batch);
        let mut taken: usize = 0;
        assert(all.reverse().subrange(0, all.len() as int) =~= all.reverse());
        loop
            invariant_except_break
                all.len() == batch_len,
                taken < all.len(),
                taken + rest@.len() == all.len(),
                rest@ == all.reverse().subrange(0, rest@.len() as int),
                self.rows@ == before + all.subrange(0, taken as int),
                self.rows_limit == old(self).rows_limit,
                taken > 0 ==> !reached(self.rows@.len() as int, self.rows_limit),
            ensures
                self.rows_limit == old(self).rows_limit,
                self.rows@ == before + all.subrange(
                    0,
                    taken_of(all.len() as int, before.len() as int, self.rows_limit),
                ),
            decreases rest@.len(),
        {
            let row = rest.pop().unwrap();
            proof {
                assert(all.reverse()[all.len() - 1 - taken] == all[taken as int]);
                assert(row == all[taken as int]);
                assert(all.subrange(0, taken + 1) =~= all.subrange(0, taken as int).push(row));
            }
            self.rows.push(row);
            taken = taken + 1;
            assert(self.rows@ =~= before + all.subrange(0, taken as int));
            if self.is_full() || rest.len() == 0 {
                break ;
            }
            assert(rest@ =~= all.reverse().subrange(0, rest@.len() as int));
        }
        if self.is_full() {
            ScanStep::Close
        } else {
            ScanStep::More
        }
    }

    /// The rows that were gathered.
    pub fn into_rows(self) -> (rows: Vec<(RowKey, RowData)>)
        ensures
            rows == self.rows,
    {
        self.rows
    }

    /// The keys of the rows that were gathered.
    pub fn into_keys(self) -> (keys: Vec<RowKey>)
        ensures
            keys@ == Seq::new(self.rows@.len(), |i: int| self.rows@[i].0),
    {
        let ghost all = self.rows@;
        let mut rest = crate::seqs::reversed(self.rows);
        let mut keys: Vec<RowKey> = Vec::new();
        while rest.len() > 0
            invariant
                keys@.len() + rest@.len() == all.len(),
                rest@ == all.reverse().subrange(0, rest@.len() as int),
                keys@ == Seq::new(keys@.len(), |i: int| all[i].0),
            decreases rest.len(),
        {
            let ghost n = keys@.len() as int;
            let (key, _) = rest.pop().unwrap();
            proof {
                assert(all.reverse()[all.len() - 1 - n] == all[n]);
            }
            keys.push(key);
            assert(keys@ =~= Seq::new(keys@.len(), |i: int| all[i].0));
            assert(rest@ =~= all.reverse().subrange(0, rest@.len() as int));
        }
        assert(keys@ =~= Seq::new(all.len(), |i: int| all[i].0));
        keys
    }
}

/// The write of a value to a column: no delete; the column is the family,
/// a colon and the qualifier.
pub open spec fn put_mutation(
    family: Seq<char>,
    qualifier: Seq<char>,
    value: Seq<u8>,
    write_to_wal: bool,
) -> MutationView {
    MutationView {
        is_delete: Some(false),
        column: Some(utf8(family + seq![':'] + qualifier)),
        value: Some(value),
        write_to_wal: Some(write_to_wal),
    }
}

/// Builds a mutation with `hbase_thrift::MutationBuilder`: the builder joins
/// family and qualifier with a colon, and hands the value and the switch
/// for the log on as they are.
#[verifier::external_body]
fn build_mutation(family: &str, qualifier: &str, value: Vec<u8>, write_to_wal: bool) -> (mutation:
    Mutation)
    ensures
        mutation@ == put_mutation(family@, qualifier@, value@, write_to_wal),
{
    let mut builder = hbase_thrift::MutationBuilder::default();
    builder.column(family, qualifier);
    builder.value(value);
    builder.write_to_wal(write_to_wal);
    let built = builder.build();
    Mutation {
        is_delete: built.is_delete,
        column: built.column,
        value: built.value,
        write_to_wal: built.write_to_w_a_l,
    }
}

/// The writes to one row that holds one cell.
pub open spec fn cell_batch(
    key: Seq<char>,
    qualifier: Seq<char>,
    value: Seq<u8>,
    write_to_wal: bool,
) -> BatchMutationView {
    BatchMutationView {
        row: utf8(key),
        mutations: seq![put_mutation(COLUMN_FAMILY@, qualifier, value, write_to_wal)],
    }
}

/// Writes one record: frames it, and makes the batch for its row.
pub open spec fn record_writer(qualifier: Seq<char>, use_compression: bool, use_wal: bool) -> spec_fn(
    (Seq<char>, Seq<u8>),
) -> Result<BatchMutationView, ()> {
    |cell: (Seq<char>, Seq<u8>)|
        match stored(cell.1, use_compression) {
            Ok(value) => Ok(cell_batch(cell.0, qualifier, value, use_wal)),
            Err(_) => Err(()),
        }
}

/// Records as characters and bytes.
pub open spec fn record_views(cells: Seq<(String, Vec<u8>)>) -> Seq<(Seq<char>, Seq<u8>)> {
    Seq::new(cells.len(), |i: int| (cells[i].0@, cells[i].1@))
}

/// The batches that write records under a qualifier, one row each; an
/// error where one of them cannot be framed.
pub open spec fn record_batches(
    cells: Seq<(Seq<char>, Seq<u8>)>,
    qualifier: Seq<char>,
    use_compression: bool,
    use_wal: bool,
) -> Result<Seq<BatchMutationView>, ()> {
    crate::seqs::try_map(cells, record_writer(qualifier, use_compression, use_wal))
}

/// The number of bytes that batches of one cell each write.
pub open spec fn bytes_written(batches: Seq<BatchMutationView>) -> nat
    decreases batches.len(),
{
    if batches.len() == 0 {
        0
    } else {
        bytes_written(batches.drop_last()) + match batches.last().mutations[0].value {
            Some(v) => v.len(),
            None => 0,
        }
    }
}

/// A count of bytes, as far as the machine can count.
pub open spec fn capped(count: nat) -> usize {
    if count > usize::MAX {
        usize::MAX
    } else {
        count as usize
    }
}

/// The views of batches.
pub open spec fn batch_views(batches: Seq<BatchMutation>) -> Seq<BatchMutationView> {
    Seq::new(batches.len(), |i: int| batches[i]@)
}

/// The batches that write records, and the number of bytes that they write.
/// Each record is framed, with compression if it is asked for, and goes to
/// the column of the qualifier in its own row.
pub fn put_cells(cells: &Vec<(RowKey, Vec<u8>)>, qualifier: &str, use_compression: bool, use_wal: bool) -> (written:
    Result<(Vec<BatchMutation>, usize), Error>)
    ensures
        match written {
            Ok((batches, bytes)) => record_batches(
                record_views(cells@),
                qualifier@,
                use_compression,
                use_wal,
            ) == Ok::<Seq<BatchMutationView>, ()>(batch_views(batches@)) && bytes == capped(
                bytes_written(batch_views(batches@)),
            ),
            Err(e) => record_batches(record_views(cells@), qualifier@, use_compression, use_wal)
                is Err && e@ == crate::cell::ErrorView::Io("the cell could not be compressed"@),
        },
{
    let ghost writer = record_writer(qualifier@, use_compression, use_wal);
    let ghost all = record_views(cells@);
    let mut batches: Vec<BatchMutation> = Vec::new();
    let mut bytes: usize = 0;
    let mut i: usize = 0;
    proof {
        assert(batch_views(batches@) =~= Seq::<BatchMutationView>::empty());
        assert(all.subrange(0, 0) =~= Seq::<(Seq<char>, Seq<u8>)>::empty());
    }
    while i < cells.len()
        invariant
            i <= cells.len(),
            all == record_views(cells@),
            writer == record_writer(qualifier@, use_compression, use_wal),
            crate::seqs::try_map(all.subrange(0, i as int), writer) == Ok::<
                Seq<BatchMutationView>,
                (),
            >(batch_views(batches@)),
            bytes == capped(bytes_written(batch_views(batches@))),
        decreases cells.len() - i,
    {
        proof {
            crate::seqs::lemma_try_map_step(all, writer, i as int);
        }
        let value = match store(cells[i].1.as_slice(), use_compression) {
            Ok(value) => value,
            Err(_) => {
                proof {
                    crate::seqs::lemma_try_map_prefix(all, writer, i + 1);
                }
                return Err(Error::Io(String::from_str("the cell could not be compressed")));
            },
        };
        bytes = bytes.saturating_add(value.len());
        let mut mutations: Vec<Mutation> = Vec::new();
        mutations.push(build_mutation(COLUMN_FAMILY, qualifier, value, use_wal));
        let batch = BatchMutation { row: text_bytes(cells[i].0.as_str()), mutations };
        assert(batch@.mutations =~= seq![
            put_mutation(COLUMN_FAMILY@, qualifier@, value@, use_wal),
        ]);
        let ghost before = batch_views(batches@);
        batches.push(batch);
        assert(batch_views(batches@) =~= before.push(batch@));
        assert(batch_views(batches@).drop_last() =~= before);
        i = i + 1;
    }
    assert(all.subrange(0, all.len() as int) =~= all);
    Ok((batches, bytes))
}

/// The batches that write records in the legacy binary encoding.
pub fn put_bincode_cells(cells: &Vec<(RowKey, Vec<u8>)>, use_compression: bool, use_wal: bool) -> (written:
    Result<(Vec<BatchMutation>, usize), Error>)
    ensures
        match written {
            Ok((batches, bytes)) => record_batches(
                record_views(cells@),
                "bin"@,
                use_compression,
                use_wal,
            ) == Ok::<Seq<BatchMutationView>, ()>(batch_views(batches@)) && bytes == capped(
                bytes_written(batch_views(batches@)),
            ),
            Err(e) => record_batches(record_views(cells@), "bin"@, use_compression, use_wal)
                is Err && e@ == crate::cell::ErrorView::Io("the cell could not be compressed"@),
        },
{
    put_cells(cells, "bin", use_compression, use_wal)
}

/// The batches that write records in the protobuf encoding.
pub fn put_protobuf_cells(cells: &Vec<(RowKey, Vec<u8>)>, use_compression: bool, use_wal: bool) -> (written:
    Result<(Vec<BatchMutation>, usize), Error>)
    ensures
        match written {
            Ok((batches, bytes)) => record_batches(
                record_views(cells@),
                "proto"@,
                use_compression,
                use_wal,
            ) == Ok::<Seq<BatchMutationView>, ()>(batch_views(batches@)) && bytes == capped(
                bytes_written(batch_views(batches@)),
            ),
            Err(e) => record_batches(record_views(cells@), "proto"@, use_compression, use_wal)
                is Err && e@ == crate::cell::ErrorView::Io("the cell could not be compressed"@),
        },
{
    put_cells(cells, "proto", use_compression, use_wal)
}

} // verus!
