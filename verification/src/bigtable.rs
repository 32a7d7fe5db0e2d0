//! The cloud store: the requests that a read makes, and how the chunks of
//! cells that it streams back are put together into rows.

use vstd::prelude::*;
use vstd::string::*;

use crate::cell::{Error, ErrorView, RowData, RowKey};
use crate::hbase::{option_bytes, option_utf8, text_bytes, utf8};

verus! {

/// How the row of a chunk ends.
#[derive(Clone, Copy, Debug, PartialEq, Eq, Structural)]
pub enum RowStatus {
    /// The row is dropped and starts again.
    ResetRow(bool),
    /// The row is complete.
    CommitRow(bool),
}

/// A piece of a cell, as the store streams it.
#[derive(Clone, Debug, PartialEq, Eq)]
pub struct CellChunk {
    /// Not empty in the first chunk of a row.
    pub row_key: Vec<u8>,
    /// Set in the first chunk of a cell.
    pub qualifier: Option<Vec<u8>>,
    pub timestamp_micros: i64,
    pub value: Vec<u8>,
    /// Set in the last chunk of a row.
    pub row_status: Option<RowStatus>,
}

pub struct CellChunkView {
    pub row_key: Seq<u8>,
    pub qualifier: Option<Seq<u8>>,
    pub timestamp_micros: i64,
    pub value: Seq<u8>,
    pub row_status: Option<RowStatus>,
}

impl View for CellChunk {
    type V = CellChunkView;

    open spec fn view(&self) -> CellChunkView {
        CellChunkView {
            row_key: self.row_key@,
            qualifier: option_bytes(self.qualifier),
            timestamp_micros: self.timestamp_micros,
            value: self.value@,
            row_status: self.row_status,
        }
    }
}

/// The rows that were put together, and the row and the cell that are being
/// put together.
#[derive(Debug)]
pub struct RowAssembler {
    pub rows: Vec<(RowKey, RowData)>,
    pub row_key: Option<String>,
    pub row_data: RowData,
    pub cell_name: Option<String>,
    pub cell_timestamp: i64,
    pub cell_value: Vec<u8>,
    pub cell_version_ok: bool,
}

/// The cells of a row as characters and bytes.
pub type RowDataView = Seq<(Seq<char>, Seq<u8>)>;

pub struct RowAssemblerView {
    pub rows: Seq<(Seq<char>, RowDataView)>,
    pub row_key: Option<Seq<char>>,
    pub row_data: RowDataView,
    pub cell_name: Option<Seq<char>>,
    pub cell_timestamp: i64,
    pub cell_value: Seq<u8>,
    pub cell_version_ok: bool,
}

/// The cells of a row as characters and bytes.
pub open spec fn row_data_view(row: Seq<(String, Vec<u8>)>) -> RowDataView {
    Seq::new(row.len(), |i: int| (row[i].0@, row[i].1@))
}

/// Rows as characters and bytes.
pub open spec fn rows_view(rows: Seq<(String, RowData)>) -> Seq<(Seq<char>, RowDataView)> {
    Seq::new(rows.len(), |i: int| (rows[i].0@, row_data_view(rows[i].1@)))
}

impl View for RowAssembler {
    type V = RowAssemblerView;

    open spec fn view(&self) -> RowAssemblerView {
        RowAssemblerView {
            rows: rows_view(self.rows@),
            row_key: crate::types::text_view(self.row_key),
            row_data: row_data_view(self.row_data@),
            cell_name: crate::types::text_view(self.cell_name),
            cell_timestamp: self.cell_timestamp,
            cell_value: self.cell_value@,
            cell_version_ok: self.cell_version_ok,
        }
    }
}

/// The text that bytes are, if they are text.
pub open spec fn text_of(bytes: Seq<u8>) -> Option<Seq<char>> {
    if vstd::utf8::valid_utf8(bytes) {
        Some(vstd::utf8::decode_utf8(bytes))
    } else {
        None
    }
}

/// Nothing put together, nothing begun.
pub open spec fn fresh() -> RowAssemblerView {
    RowAssemblerView {
        rows: Seq::empty(),
        row_key: None,
        row_data: Seq::empty(),
        cell_name: None,
        cell_timestamp: 0,
        cell_value: Seq::empty(),
        cell_version_ok: true,
    }
}

/// The cells of the current row with the current cell, if one was begun.
pub open spec fn with_cell(s: RowAssemblerView) -> RowDataView {
    match s.cell_name {
        Some(name) => s.row_data.push((name, s.cell_value)),
        None => s.row_data,
    }
}

/// A chunk with a row key starts a new row.
pub open spec fn after_row_key(s: RowAssemblerView, c: CellChunkView) -> RowAssemblerView {
    if c.row_key.len() > 0 {
        RowAssemblerView { row_key: text_of(c.row_key), ..s }
    } else {
        s
    }
}

/// A chunk with a qualifier starts a new cell: the cell before it, if there
/// was one, goes into the row. A chunk without one goes on with the cell;
/// a time stamp on it starts another version of the cell, which replaces
/// the cell if it is not older and is passed over if it is.
pub open spec fn after_qualifier(s: RowAssemblerView, c: CellChunkView) -> RowAssemblerView {
    match c.qualifier {
        Some(qualifier) => RowAssemblerView {
            row_data: with_cell(s),
            cell_value: if s.cell_name is Some {
                Seq::empty()
            } else {
                s.cell_value
            },
            cell_name: text_of(qualifier),
            cell_timestamp: c.timestamp_micros,
            cell_version_ok: true,
            ..s
        },
        None => if c.timestamp_micros == 0 {
            s
        } else if c.timestamp_micros < s.cell_timestamp {
            RowAssemblerView { cell_version_ok: false, ..s }
        } else {
            RowAssemblerView {
                cell_version_ok: true,
                cell_value: Seq::empty(),
                cell_timestamp: c.timestamp_micros,
                ..s
            }
        },
    }
}

/// The bytes of a chunk go to the cell, unless its version is passed over.
pub open spec fn after_value(s: RowAssemblerView, c: CellChunkView) -> RowAssemblerView {
    if s.cell_version_ok {
        RowAssemblerView { cell_value: s.cell_value + c.value, ..s }
    } else {
        s
    }
}

/// A chunk that ends its row clears everything that was begun. If it
/// commits the row, the row goes to the rows, with the cell that was
/// begun, unless its key was no text.
pub open spec fn after_status(s: RowAssemblerView, c: CellChunkView) -> RowAssemblerView {
    match c.row_status {
        None => s,
        Some(status) => RowAssemblerView {
            rows: match (status, s.row_key) {
                (RowStatus::CommitRow(_), Some(key)) => s.rows.push((key, with_cell(s))),
                _ => s.rows,
            },
            ..fresh()
        },
    }
}

/// What one chunk makes of what was put together.
pub open spec fn step(s: RowAssemblerView, c: CellChunkView) -> RowAssemblerView {
    after_status(after_value(after_qualifier(after_row_key(s, c), c), c), c)
}

/// What chunks make of what was put together, one after the other.
pub open spec fn steps(s: RowAssemblerView, chunks: Seq<CellChunkView>) -> RowAssemblerView
    decreases chunks.len(),
{
    if chunks.len() == 0 {
        s
    } else {
        step(steps(s, chunks.drop_last()), chunks.last())
    }
}

/// Reads bytes as text with `String::from_utf8`: the text that the bytes
/// encode, if they are well-formed UTF-8.
#[verifier::external_body]
fn string_from_utf8(bytes: Vec<u8>) -> (text: Option<String>)
    ensures
        text_of(bytes@) == match text {
            Some(t) => Some(t@),
            None => None,
        },
{
    String::from_utf8(bytes).ok()
}

/// Whether a read has taken longer than it may. Times are in nanoseconds.
pub fn timed_out(elapsed: u128, timeout: Option<u128>) -> (late: bool)
    ensures
        late == match timeout {
            Some(t) => elapsed > t,
            None => false,
        },
{
    match timeout {
        Some(t) => elapsed > t,
        None => false,
    }
}

impl RowAssembler {
    /// Nothing put together, nothing begun.
    pub fn new() -> (assembler: RowAssembler)
        ensures
            assembler@ == fresh(),
    {
        let assembler = RowAssembler {
            rows: Vec::new(),
            row_key: None,
            row_data: Vec::new(),
            cell_name: None,
            cell_timestamp: 0,
            cell_value: Vec::new(),
            cell_version_ok: true,
        };
        assert(assembler@.rows =~= Seq::empty());
        assert(assembler@.row_data =~= Seq::empty());
        assembler
    }

    /// Takes one chunk.
    pub fn push_chunk(self, chunk: CellChunk) -> (next: RowAssembler)
        ensures
            next@ == step(self@, chunk@),
    {
        let ghost s0 = self@;
        let ghost c = chunk@;
        let RowAssembler {
            rows,
            row_key,
            row_data,
            cell_name,
            cell_timestamp,
            cell_value,
            cell_version_ok,
        } = self;
        let CellChunk { row_key: chunk_key, qualifier, timestamp_micros, value, row_status } =
            chunk;
        let mut rows = rows;
        let mut row_key = row_key;
        let mut row_data = row_data;
        let mut cell_name = cell_name;
        let mut cell_timestamp = cell_timestamp;
        let mut cell_value = cell_value;
        let mut cell_version_ok = cell_version_ok;
        // Starting a new row?
        if chunk_key.len() > 0 {
            row_key = string_from_utf8(chunk_key);
        }
        let ghost s1 = after_row_key(s0, c);
        assert(crate::types::text_view(row_key) == s1.row_key);
        // Starting a new cell?
        match qualifier {
            Some(qualifier) => {
                match cell_name {
                    Some(name) => {
                        let ghost before = row_data_view(row_data@);
                        row_data.push((name, cell_value));
                        assert(row_data_view(row_data@) =~= before.push((name@, s0.cell_value)));
                        cell_value = Vec::new();
                    },
                    None => {},
                }
                cell_name = string_from_utf8(qualifier);
                cell_timestamp = timestamp_micros;
                cell_version_ok = true;
            },
            None => {
                // Going on with the cell; is this another version of it?
                if timestamp_micros != 0 {
                    if timestamp_micros < cell_timestamp {
                        cell_version_ok = false;
                    } else {
                        cell_version_ok = true;
                        cell_value = Vec::new();
                        cell_timestamp = timestamp_micros;
                    }
                }
            },
        }
        let ghost s2 = after_qualifier(s1, c);
        assert(row_data_view(row_data@) == s2.row_data);
        assert(cell_value@ =~= s2.cell_value);
        assert(crate::types::text_view(cell_name) == s2.cell_name);
        if cell_version_ok {
            crate::seqs::append_bytes(&mut cell_value, value.as_slice());
        }
        let ghost s3 = after_value(s2, c);
        assert(cell_value@ =~= s3.cell_value);
        // End of a row?
        match row_status {
            None => {
                let next = RowAssembler {
                    rows,
                    row_key,
                    row_data,
                    cell_name,
                    cell_timestamp,
                    cell_value,
                    cell_version_ok,
                };
                assert(next@ == s3);
                next
            },
            Some(status) => {
                match status {
                    RowStatus::CommitRow(_) => {
                        match cell_name {
                            Some(name) => {
                                let ghost before = row_data_view(row_data@);
                                row_data.push((name, cell_value));
                                assert(row_data_view(row_data@) =~= before.push(
                                    (name@, s3.cell_value),
                                ));
                            },
                            None => {},
                        }
                        assert(row_data_view(row_data@) == with_cell(s3));
                        match row_key {
                            Some(key) => {
                                let ghost before = rows_view(rows@);
                                rows.push((key, row_data));
                                assert(rows_view(rows@) =~= before.push((key@, with_cell(s3))));
                            },
                            None => {},
                        }
                    },
                    RowStatus::ResetRow(_) => {},
                }
                let next = RowAssembler {
                    rows,
                    row_key: None,
                    row_data: Vec::new(),
                    cell_name: None,
                    cell_timestamp: 0,
                    cell_value: Vec::new(),
                    cell_version_ok: true,
                };
                assert(next@.row_data =~= Seq::empty());
                assert(next@.cell_value =~= Seq::empty());
                assert(next@ == after_status(s3, c));
                next
            },
        }
    }

    /// Takes the chunks of one message of the stream, unless the read has
    /// taken longer than it may. Times are in nanoseconds.
    pub fn push_response(self, chunks: Vec<CellChunk>, elapsed: u128, timeout: Option<u128>) -> (next:
        Result<RowAssembler, Error>)
        ensures
            match next {
                Ok(a) => !(timeout matches Some(t) && elapsed > t) && a@ == steps(
                    self@,
                    crate::seqs::views(chunks@),
                ),
                Err(e) => (timeout matches Some(t) && elapsed > t) && e@ == ErrorView::Timeout,
            },
    {
        if timed_out(elapsed, timeout) {
            return Err(Error::Timeout);
        }
        let ghost start = self@;
        let ghost all = crate::seqs::views(chunks@);
        let ghost items = chunks@;
        let mut rest = crate::seqs::reversed(chunks);
        let mut assembler = self;
        let mut taken: usize = 0;
        let total = rest.len();
        assert(all.subrange(0, 0) =~= Seq::<CellChunkView>::empty());
        while rest.len() > 0
            invariant
                items.len() == total,
                all == crate::seqs::views(items),
                taken + rest@.len() == items.len(),
                rest@ == items.reverse().subrange(0, rest@.len() as int),
                assembler@ == steps(start, all.subrange(0, taken as int)),
            decreases rest.len(),
        {
            let chunk = rest.pop().unwrap();
            proof {
                assert(items.reverse()[items.len() - 1 - taken] == items[taken as int]);
                let longer = all.subrange(0, taken + 1);
                assert(longer.drop_last() =~= all.subrange(0, taken as int));
                assert(longer.last() == chunk@);
            }
            assembler = assembler.push_chunk(chunk);
            taken = taken + 1;
            assert(rest@ =~= items.reverse().subrange(0, rest@.len() as int));
        }
        assert(all.subrange(0, all.len() as int) =~= all);
        Ok(assembler)
    }

    /// The rows that were put together.
    pub fn into_rows(self) -> (rows: Vec<(RowKey, RowData)>)
        ensures
            rows_view(rows@) == self@.rows,
    {
        self.rows
    }
}

/// A filter on the cells of a read.
#[derive(Clone, Copy, Debug, PartialEq, Eq, Structural)]
pub enum CellFilter {
    CellsPerRowLimit(i32),
    CellsPerColumnLimit(i32),
    StripValueTransformer(bool),
}

/// The filter of a read: one filter, or several that are applied one after
/// the other.
#[derive(Clone, Debug, PartialEq, Eq)]
pub enum RowFilter {
    Single(CellFilter),
    Chain(Vec<CellFilter>),
}

/// A range of row keys with both ends in it, where they are given.
#[derive(Clone, Debug, PartialEq, Eq)]
pub struct RowRange {
    pub start_key_closed: Option<Vec<u8>>,
    pub end_key_closed: Option<Vec<u8>>,
}

/// What a read asks of the store.
#[derive(Clone, Debug, PartialEq, Eq)]
pub struct ReadRowsRequest {
    pub table_name: String,
    pub app_profile_id: String,
    /// Zero for all rows.
    pub rows_limit: i64,
    pub row_keys: Vec<Vec<u8>>,
    pub row_ranges: Vec<RowRange>,
    pub filter: RowFilter,
}

pub struct ReadRowsRequestView {
    pub table_name: Seq<char>,
    pub app_profile_id: Seq<char>,
    pub rows_limit: i64,
    pub row_keys: Seq<Seq<u8>>,
    pub row_ranges: Seq<(Option<Seq<u8>>, Option<Seq<u8>>)>,
    pub filter: Seq<CellFilter>,
    pub chained: bool,
}

impl View for ReadRowsRequest {
    type V = ReadRowsRequestView;

    open spec fn view(&self) -> ReadRowsRequestView {
        ReadRowsRequestView {
            table_name: self.table_name@,
            app_profile_id: self.app_profile_id@,
            rows_limit: self.rows_limit,
            row_keys: Seq::new(self.row_keys@.len(), |i: int| self.row_keys@[i]@),
            row_ranges: Seq::new(
                self.row_ranges@.len(),
                |i: int|
                    (
                        option_bytes(self.row_ranges@[i].start_key_closed),
                        option_bytes(self.row_ranges@[i].end_key_closed),
                    ),
            ),
            filter: match self.filter {
                RowFilter::Single(f) => seq![f],
                RowFilter::Chain(fs) => fs@,
            },
            chained: self.filter is Chain,
        }
    }
}

/// How an adapter of the cloud store is set up.
#[derive(Clone, Debug)]
pub struct LedgerStorageConfig {
    pub read_only: bool,
    /// In seconds.
    pub timeout: Option<u64>,
    pub credential_type: crate::config::CredentialType,
    pub instance_name: String,
    pub app_profile_id: String,
}

impl Default for LedgerStorageConfig {
    /// A reader of the default instance, with credentials from the file
    /// that the environment names.
    fn default() -> (config: LedgerStorageConfig)
        ensures
            config.read_only,
            config.timeout is None,
            config.credential_type == crate::config::CredentialType::Filepath(None),
            config.instance_name@ == crate::config::DEFAULT_INSTANCE_NAME@,
            config.app_profile_id@ == crate::config::DEFAULT_APP_PROFILE_ID@,
    {
        LedgerStorageConfig {
            read_only: true,
            timeout: None,
            credential_type: crate::config::CredentialType::Filepath(None),
            instance_name: String::from_str(crate::config::DEFAULT_INSTANCE_NAME),
            app_profile_id: String::from_str(crate::config::DEFAULT_APP_PROFILE_ID),
        }
    }
}

/// Which rights a connection asks for.
#[derive(Clone, Copy, Debug, PartialEq, Eq, Structural)]
pub enum Scope {
    BigTableDataReadOnly,
    BigTableData,
}

/// The rights that a connection asks for: no more than it needs.
pub fn access_scope(read_only: bool) -> (scope: Scope)
    ensures
        scope == if read_only {
            Scope::BigTableDataReadOnly
        } else {
            Scope::BigTableData
        },
{
    if read_only {
        Scope::BigTableDataReadOnly
    } else {
        Scope::BigTableData
    }
}

/// What a client of the cloud store reads with.
#[derive(Clone, Debug)]
pub struct BigTable {
    /// What goes in front of the name of a table.
    pub table_prefix: String,
    pub app_profile_id: String,
    /// In nanoseconds.
    pub timeout: Option<u128>,
}

impl BigTable {
    /// The client of a project and an instance in the cloud.
    pub fn new(project: &str, instance_name: &str, app_profile_id: &str, timeout: Option<u128>) -> (client:
        BigTable)
        ensures
            client.table_prefix@ == "projects/"@ + project@ + "/instances/"@ + instance_name@
                + "/tables/"@,
            client.app_profile_id@ == app_profile_id@,
            client.timeout == timeout,
    {
        let mut table_prefix = String::from_str("projects/");
        table_prefix.append(project);
        table_prefix.append("/instances/");
        table_prefix.append(instance_name);
        table_prefix.append("/tables/");
        BigTable { table_prefix, app_profile_id: String::from_str(app_profile_id), timeout }
    }

    /// The client of an instance of the emulator.
    pub fn new_for_emulator(instance_name: &str, app_profile_id: &str, timeout: Option<u128>) -> (client:
        BigTable)
        ensures
            client.table_prefix@ == "projects/"@ + "emulator"@ + "/instances/"@ + instance_name@
                + "/tables/"@,
            client.app_profile_id@ == app_profile_id@,
            client.timeout == timeout,
    {
        BigTable::new("emulator", instance_name, app_profile_id, timeout)
    }

    /// The full name of a table.
    pub fn table(&self, table_name: &str) -> (name: String)
        ensures
            name@ == self.table_prefix@ + table_name@,
    {
        let mut name = self.table_prefix.clone();
        name.append(table_name);
        name
    }

    /// The request of a read over a range of rows.
    fn range_request(
        &self,
        table_name: &str,
        start_at: &Option<RowKey>,
        end_at: &Option<RowKey>,
        rows_limit: i64,
        filter: RowFilter,
    ) -> (request: ReadRowsRequest)
        ensures
            request.table_name@ == self.table_prefix@ + table_name@,
            request.app_profile_id@ == self.app_profile_id@,
            request.rows_limit == rows_limit,
            request@.row_keys == Seq::<Seq<u8>>::empty(),
            request@.row_ranges == seq![(option_utf8(*start_at), option_utf8(*end_at))],
            request.filter == filter,
    {
        let mut row_ranges: Vec<RowRange> = Vec::new();
        row_ranges.push(
            RowRange {
                start_key_closed: match start_at {
                    Some(k) => Some(text_bytes(k.as_str())),
                    None => None,
                },
                end_key_closed: match end_at {
                    Some(k) => Some(text_bytes(k.as_str())),
                    None => None,
                },
            },
        );
        let request = ReadRowsRequest {
            table_name: self.table(table_name),
            app_profile_id: self.app_profile_id.clone(),
            rows_limit,
            row_keys: Vec::new(),
            row_ranges,
            filter,
        };
        assert(request@.row_keys =~= Seq::<Seq<u8>>::empty());
        assert(request@.row_ranges =~= seq![(option_utf8(*start_at), option_utf8(*end_at))]);
        request
    }

    /// The request of a read of rows by their keys.
    fn keys_request(&self, table_name: &str, row_keys: &Vec<RowKey>, rows_limit: i64, filter: RowFilter) -> (request:
        ReadRowsRequest)
        ensures
            request.table_name@ == self.table_prefix@ + table_name@,
            request.app_profile_id@ == self.app_profile_id@,
            request.rows_limit == rows_limit,
            request@.row_keys == Seq::new(row_keys@.len(), |i: int| utf8(row_keys@[i]@)),
            request@.row_ranges == Seq::<(Option<Seq<u8>>, Option<Seq<u8>>)>::empty(),
            request.filter == filter,
    {
        let mut keys: Vec<Vec<u8>> = Vec::new();
        let mut i: usize = 0;
        while i < row_keys.len()
            invariant
                i <= row_keys.len(),
                keys@.len() == i,
                forall|j: int| 0 <= j < i ==> (#[trigger] keys@[j])@ == utf8(row_keys@[j]@),
            decreases row_keys.len() - i,
        {
            keys.push(text_bytes(row_keys[i].as_str()));
            i = i + 1;
        }
        let request = ReadRowsRequest {
            table_name: self.table(table_name),
            app_profile_id: self.app_profile_id.clone(),
            rows_limit,
            row_keys: keys,
            row_ranges: Vec::new(),
            filter,
        };
        assert(request@.row_keys =~= Seq::new(row_keys@.len(), |i: int| utf8(row_keys@[i]@)));
        assert(request@.row_ranges =~= Seq::<(Option<Seq<u8>>, Option<Seq<u8>>)>::empty());
        request
    }

    /// The request that lists the row keys of a table in their order, from
    /// `start_at` to `end_at` where they are given: one cell of each row,
    /// the latest of its column, without its value. No request is made for
    /// a limit of zero rows: the answer is then the empty list.
    pub fn get_row_keys(
        &self,
        table_name: &str,
        start_at: &Option<RowKey>,
        end_at: &Option<RowKey>,
        rows_limit: i64,
    ) -> (request: Option<ReadRowsRequest>)
        ensures
            request is None <==> rows_limit == 0,
            request matches Some(r) ==> r@ == (ReadRowsRequestView {
                table_name: self.table_prefix@ + table_name@,
                app_profile_id: self.app_profile_id@,
                rows_limit,
                row_keys: Seq::empty(),
                row_ranges: seq![(option_utf8(*start_at), option_utf8(*end_at))],
                filter: seq![
                    CellFilter::CellsPerRowLimit(1),
                    CellFilter::CellsPerColumnLimit(1),
                    CellFilter::StripValueTransformer(true),
                ],
                chained: true,
            }),
    {
        if rows_limit == 0 {
            return None;
        }
        let mut filters: Vec<CellFilter> = Vec::new();
        filters.push(CellFilter::CellsPerRowLimit(1));
        filters.push(CellFilter::CellsPerColumnLimit(1));
        filters.push(CellFilter::StripValueTransformer(true));
        assert(filters@ =~= seq![
            CellFilter::CellsPerRowLimit(1),
            CellFilter::CellsPerColumnLimit(1),
            CellFilter::StripValueTransformer(true),
        ]);
        Some(self.range_request(table_name, start_at, end_at, rows_limit, RowFilter::Chain(filters)))
    }

    /// The request that tells whether a table holds a row: the row by its
    /// key, without values.
    pub fn row_key_exists(&self, table_name: &str, row_key: RowKey) -> (request: ReadRowsRequest)
        ensures
            request@ == (ReadRowsRequestView {
                table_name: self.table_prefix@ + table_name@,
                app_profile_id: self.app_profile_id@,
                rows_limit: 1,
                row_keys: seq![utf8(row_key@)],
                row_ranges: Seq::empty(),
                filter: seq![CellFilter::StripValueTransformer(true)],
                chained: false,
            }),
    {
        let mut keys: Vec<RowKey> = Vec::new();
        keys.push(row_key);
        let request = self.keys_request(
            table_name,
            &keys,
            1,
            RowFilter::Single(CellFilter::StripValueTransformer(true)),
        );
        assert(request@.row_keys =~= seq![utf8(row_key@)]);
        request
    }

    /// The request that reads the latest cells of the rows of a table from
    /// `start_at` to `end_at` where they are given. No request is made for
    /// a limit of zero rows.
    pub fn get_row_data(
        &self,
        table_name: &str,
        start_at: &Option<RowKey>,
        end_at: &Option<RowKey>,
        rows_limit: i64,
    ) -> (request: Option<ReadRowsRequest>)
        ensures
            request is None <==> rows_limit == 0,
            request matches Some(r) ==> r@ == (ReadRowsRequestView {
                table_name: self.table_prefix@ + table_name@,
                app_profile_id: self.app_profile_id@,
                rows_limit,
                row_keys: Seq::empty(),
                row_ranges: seq![(option_utf8(*start_at), option_utf8(*end_at))],
                filter: seq![CellFilter::CellsPerColumnLimit(1)],
                chained: false,
            }),
    {
        if rows_limit == 0 {
            return None;
        }
        Some(
            self.range_request(
                table_name,
                start_at,
                end_at,
                rows_limit,
                RowFilter::Single(CellFilter::CellsPerColumnLimit(1)),
            ),
        )
    }

    /// The request that reads the latest cells of the rows with the given
    /// keys, as many of them as exist.
    pub fn get_multi_row_data(&self, table_name: &str, row_keys: &Vec<RowKey>) -> (request:
        ReadRowsRequest)
        ensures
            request@ == (ReadRowsRequestView {
                table_name: self.table_prefix@ + table_name@,
                app_profile_id: self.app_profile_id@,
                rows_limit: 0,
                row_keys: Seq::new(row_keys@.len(), |i: int| utf8(row_keys@[i]@)),
                row_ranges: Seq::empty(),
                filter: seq![CellFilter::CellsPerColumnLimit(1)],
                chained: false,
            }),
    {
        self.keys_request(
            table_name,
            row_keys,
            0,
            RowFilter::Single(CellFilter::CellsPerColumnLimit(1)),
        )
    }

    /// The request that reads the latest cells of one row.
    pub fn get_single_row_data(&self, table_name: &str, row_key: RowKey) -> (request:
        ReadRowsRequest)
        ensures
            request@ == (ReadRowsRequestView {
                table_name: self.table_prefix@ + table_name@,
                app_profile_id: self.app_profile_id@,
                rows_limit: 1,
                row_keys: seq![utf8(row_key@)],
                row_ranges: Seq::empty(),
                filter: seq![CellFilter::CellsPerColumnLimit(1)],
                chained: false,
            }),
    {
        let mut keys: Vec<RowKey> = Vec::new();
        keys.push(row_key);
        let request = self.keys_request(
            table_name,
            &keys,
            1,
            RowFilter::Single(CellFilter::CellsPerColumnLimit(1)),
        );
        assert(request@.row_keys =~= seq![utf8(row_key@)]);
        request
    }
}

/// What the legacy binary cell of a row gives, as bytes or as an error.
pub open spec fn bincode_payload(row: (String, RowData), table: Seq<char>) -> Result<
    Seq<u8>,
    ErrorView,
> {
    crate::cell::named_payload(
        row.1@,
        crate::cell::bin_cell(),
        crate::cell::object_id(table, row.0@),
    )
}

/// What the record of a row gives, as bytes in their encoding or as an
/// error.
pub open spec fn record_of(row: (String, RowData), table: Seq<char>) -> Result<
    crate::cell::CellData<Seq<u8>, Seq<u8>>,
    ErrorView,
> {
    crate::cell::record_payload(row.1@, crate::cell::object_id(table, row.0@))
}

/// The bytes of the legacy binary cells of the rows that a read of several
/// rows gave, row by row.
pub fn get_bincode_cells(rows: &Vec<(RowKey, RowData)>, table: &str) -> (cells: Vec<
    (RowKey, Result<Vec<u8>, Error>),
>)
    ensures
        cells@.len() == rows@.len(),
        forall|i: int|
            0 <= i < rows@.len() ==> (#[trigger] cells@[i]).0@ == rows@[i].0@ && bincode_payload(
                rows@[i],
                table@,
            ) == match cells@[i].1 {
                Ok(bytes) => Ok::<Seq<u8>, ErrorView>(bytes@),
                Err(e) => Err(e@),
            },
{
    let mut cells: Vec<(RowKey, Result<Vec<u8>, Error>)> = Vec::new();
    let mut i: usize = 0;
    while i < rows.len()
        invariant
            i <= rows.len(),
            cells@.len() == i,
            forall|j: int|
                0 <= j < i ==> (#[trigger] cells@[j]).0@ == rows@[j].0@ && bincode_payload(
                    rows@[j],
                    table@,
                ) == match cells@[j].1 {
                    Ok(bytes) => Ok::<Seq<u8>, ErrorView>(bytes@),
                    Err(e) => Err(e@),
                },
        decreases rows.len() - i,
    {
        let key = rows[i].0.clone();
        let payload = crate::cell::deserialize_bincode_cell_data(
            rows[i].1.as_slice(),
            table,
            rows[i].0.as_str(),
        );
        cells.push((key, payload));
        i = i + 1;
    }
    cells
}

/// The bytes of the records of the rows that a read of several rows gave,
/// row by row, each in its encoding.
pub fn get_protobuf_or_bincode_cells(rows: &Vec<(RowKey, RowData)>, table: &str) -> (cells: Vec<
    (RowKey, Result<crate::cell::CellData<Vec<u8>, Vec<u8>>, Error>),
>)
    ensures
        cells@.len() == rows@.len(),
        forall|i: int|
            0 <= i < rows@.len() ==> (#[trigger] cells@[i]).0@ == rows@[i].0@ && record_of(
                rows@[i],
                table@,
            ) == match cells@[i].1 {
                Ok(payload) => Ok::<crate::cell::CellData<Seq<u8>, Seq<u8>>, ErrorView>(
                    crate::cell::payload_view(payload),
                ),
                Err(e) => Err(e@),
            },
{
    let mut cells: Vec<(RowKey, Result<crate::cell::CellData<Vec<u8>, Vec<u8>>, Error>)> =
        Vec::new();
    let mut i: usize = 0;
    while i < rows.len()
        invariant
            i <= rows.len(),
            cells@.len() == i,
            forall|j: int|
                0 <= j < i ==> (#[trigger] cells@[j]).0@ == rows@[j].0@ && record_of(
                    rows@[j],
                    table@,
                ) == match cells@[j].1 {
                    Ok(payload) => Ok::<crate::cell::CellData<Seq<u8>, Seq<u8>>, ErrorView>(
                        crate::cell::payload_view(payload),
                    ),
                    Err(e) => Err(e@),
                },
        decreases rows.len() - i,
    {
        let key = rows[i].0.clone();
        let payload = crate::cell::deserialize_protobuf_or_bincode_cell_data(
            rows[i].1.as_slice(),
            table,
            rows[i].0.as_str(),
        );
        cells.push((key, payload));
        i = i + 1;
    }
    cells
}

/// Whether a read for a row found it.
pub fn row_exists(rows: &Vec<(RowKey, RowData)>) -> (exists: bool)
    ensures
        exists == (rows@.len() > 0),
{
    rows.len() > 0
}

/// The cells of the row that a read for one row found, or `RowNotFound`.
pub fn single_row(rows: Vec<(RowKey, RowData)>) -> (row: Result<RowData, Error>)
    ensures
        match row {
            Ok(r) => rows@.len() > 0 && r == rows@[0].1,
            Err(e) => rows@.len() == 0 && e@ == ErrorView::RowNotFound,
        },
{
    let mut rows = rows;
    if rows.len() == 0 {
        Err(Error::RowNotFound)
    } else {
        let (_, row) = rows.swap_remove(0);
        Ok(row)
    }
}

/// The legacy binary record of the row that a read for one row found: its
/// plain bytes, or `RowNotFound`.
pub fn get_bincode_cell(rows: Vec<(RowKey, RowData)>, table: &str, key: &str) -> (payload: Result<
    Vec<u8>,
    Error,
>)
    ensures
        if rows@.len() == 0 {
            payload matches Err(e) && e@ == ErrorView::RowNotFound
        } else {
            crate::cell::named_payload(
                rows@[0].1@,
                crate::cell::bin_cell(),
                crate::cell::object_id(table@, key@),
            ) == match payload {
                Ok(p) => Ok::<Seq<u8>, ErrorView>(p@),
                Err(e) => Err(e@),
            }
        },
{
    crate::hbase::get_bincode_cell(single_row(rows), table, key)
}

/// The record of the row that a read for one row found, as plain bytes in
/// their encoding, or `RowNotFound`.
pub fn get_protobuf_or_bincode_cell(rows: Vec<(RowKey, RowData)>, table: &str, key: &str) -> (payload:
    Result<crate::cell::CellData<Vec<u8>, Vec<u8>>, Error>)
    ensures
        if rows@.len() == 0 {
            payload matches Err(e) && e@ == ErrorView::RowNotFound
        } else {
            crate::cell::record_payload(rows@[0].1@, crate::cell::object_id(table@, key@))
                == match payload {
                Ok(p) => Ok::<crate::cell::CellData<Seq<u8>, Seq<u8>>, ErrorView>(
                    crate::cell::payload_view(p),
                ),
                Err(e) => Err(e@),
            }
        },
{
    crate::hbase::get_protobuf_or_bincode_cell(single_row(rows), table, key)
}

} // verus!
