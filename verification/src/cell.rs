//! Rows and cells as both stores hand them out, and the choice of the cell
//! that holds a record.
//!
//! A record is stored under the qualifier `x:proto` in the protobuf encoding
//! or under `x:bin` in the legacy binary encoding. A row may hold both; the
//! protobuf cell is preferred.

use vstd::prelude::*;
use vstd::string::*;

use crate::compression::{decompress, decompressed};

verus! {

pub type RowKey = String;

pub type CellName = String;

pub type CellValue = Vec<u8>;

pub type RowData = Vec<(CellName, CellValue)>;

/// A record in one of the two encodings.
#[derive(Clone, Debug, PartialEq, Eq)]
pub enum CellData<B, P> {
    Bincode(B),
    Protobuf(P),
}

/// What a store can fail with.
#[derive(Clone, Debug, PartialEq, Eq)]
pub enum Error {
    AccessToken(String),
    Certificate(String),
    Io(String),
    Transport(String),
    InvalidUri(String, String),
    RowNotFound,
    RowWriteFailed,
    RowDeleteFailed,
    /// The row holds the record under neither qualifier.
    ObjectNotFound(String),
    /// The cell cannot be unframed or decoded.
    ObjectCorrupt(String),
    Rpc(String),
    Thrift(String),
    Timeout,
}

/// An error as characters.
pub enum ErrorView {
    AccessToken(Seq<char>),
    Certificate(Seq<char>),
    Io(Seq<char>),
    Transport(Seq<char>),
    InvalidUri(Seq<char>, Seq<char>),
    RowNotFound,
    RowWriteFailed,
    RowDeleteFailed,
    ObjectNotFound(Seq<char>),
    ObjectCorrupt(Seq<char>),
    Rpc(Seq<char>),
    Thrift(Seq<char>),
    Timeout,
}

impl View for Error {
    type V = ErrorView;

    open spec fn view(&self) -> ErrorView {
        match self {
            Error::AccessToken(m) => ErrorView::AccessToken(m@),
            Error::Certificate(m) => ErrorView::Certificate(m@),
            Error::Io(m) => ErrorView::Io(m@),
            Error::Transport(m) => ErrorView::Transport(m@),
            Error::InvalidUri(u, m) => ErrorView::InvalidUri(u@, m@),
            Error::RowNotFound => ErrorView::RowNotFound,
            Error::RowWriteFailed => ErrorView::RowWriteFailed,
            Error::RowDeleteFailed => ErrorView::RowDeleteFailed,
            Error::ObjectNotFound(id) => ErrorView::ObjectNotFound(id@),
            Error::ObjectCorrupt(id) => ErrorView::ObjectCorrupt(id@),
            Error::Rpc(m) => ErrorView::Rpc(m@),
            Error::Thrift(m) => ErrorView::Thrift(m@),
            Error::Timeout => ErrorView::Timeout,
        }
    }
}

/// The qualifier of the protobuf cell: `x:proto`.
pub open spec fn proto_cell() -> Seq<char> {
    seq!['x', ':', 'p', 'r', 'o', 't', 'o']
}

/// The qualifier of the legacy binary cell: `x:bin`.
pub open spec fn bin_cell() -> Seq<char> {
    seq!['x', ':', 'b', 'i', 'n']
}

/// What names a record in an error: the table, a slash, the row key.
pub open spec fn object_id(table: Seq<char>, key: Seq<char>) -> Seq<char> {
    table + seq!['/'] + key
}

/// The value of the first cell of a row that has the given name.
pub open spec fn cell_value(row: Seq<(String, Vec<u8>)>, name: Seq<char>) -> Option<Seq<u8>>
    decreases row.len(),
{
    if row.len() == 0 {
        None
    } else if row[0].0@ == name {
        Some(row[0].1@)
    } else {
        cell_value(row.drop_first(), name)
    }
}

/// The plain bytes of the cell with the given name, or why there are none:
/// the cell is missing, or it cannot be unframed.
pub open spec fn named_payload(
    row: Seq<(String, Vec<u8>)>,
    name: Seq<char>,
    id: Seq<char>,
) -> Result<Seq<u8>, ErrorView> {
    match cell_value(row, name) {
        None => Err(ErrorView::ObjectNotFound(id)),
        Some(value) => match decompressed(value) {
            Ok(plain) => Ok(plain),
            Err(_) => Err(ErrorView::ObjectCorrupt(id)),
        },
    }
}

/// The plain bytes of the record of a row and their encoding. The protobuf
/// cell is taken where there is one, whatever it holds; the legacy cell only
/// where there is no protobuf cell.
pub open spec fn record_payload(row: Seq<(String, Vec<u8>)>, id: Seq<char>) -> Result<
    CellData<Seq<u8>, Seq<u8>>,
    ErrorView,
> {
    match named_payload(row, proto_cell(), id) {
        Ok(plain) => Ok(CellData::Protobuf(plain)),
        Err(ErrorView::ObjectNotFound(_)) => match named_payload(row, bin_cell(), id) {
            Ok(plain) => Ok(CellData::Bincode(plain)),
            Err(e) => Err(e),
        },
        Err(e) => Err(e),
    }
}

/// A payload in either encoding, as bytes.
pub open spec fn payload_view(payload: CellData<Vec<u8>, Vec<u8>>) -> CellData<Seq<u8>, Seq<u8>> {
    match payload {
        CellData::Bincode(b) => CellData::Bincode(b@),
        CellData::Protobuf(p) => CellData::Protobuf(p@),
    }
}

/// The name of a record in an error.
pub fn object_name(table: &str, key: &str) -> (id: String)
    ensures
        id@ == object_id(table@, key@),
{
    proof {
        reveal_strlit("/");
    }
    let mut id = String::from_str(table);
    id.append("/");
    id.append(key);
    assert(id@ =~= object_id(table@, key@));
    id
}

/// The value of the first cell of a row that has the given name.
pub fn find_cell<'a>(row_data: &'a [(String, Vec<u8>)], name: &str) -> (value: Option<&'a Vec<u8>>)
    ensures
        cell_value(row_data@, name@) == match value {
            Some(v) => Some(v@),
            None => None,
        },
{
    let wanted = String::from_str(name);
    let mut i: usize = 0;
    assert(row_data@.skip(0) =~= row_data@);
    while i < row_data.len()
        invariant
            i <= row_data.len(),
            wanted@ == name@,
            cell_value(row_data@, name@) == cell_value(row_data@.skip(i as int), name@),
        decreases row_data.len() - i,
    {
        let ghost rest = row_data@.skip(i as int);
        assert(rest[0] == row_data@[i as int]);
        if row_data[i].0 == wanted {
            return Some(&row_data[i].1);
        }
        assert(rest.drop_first() =~= row_data@.skip(i + 1));
        i = i + 1;
    }
    None
}

/// The plain bytes of the cell with the given name.
fn payload_of(row_data: &[(String, Vec<u8>)], name: &str, table: &str, key: &str) -> (payload:
    Result<Vec<u8>, Error>)
    ensures
        named_payload(row_data@, name@, object_id(table@, key@)) == match payload {
            Ok(p) => Ok::<Seq<u8>, ErrorView>(p@),
            Err(e) => Err(e@),
        },
{
    match find_cell(row_data, name) {
        None => Err(Error::ObjectNotFound(object_name(table, key))),
        Some(value) => match decompress(value.as_slice()) {
            Ok(plain) => Ok(plain),
            Err(_) => Err(Error::ObjectCorrupt(object_name(table, key))),
        },
    }
}

/// The plain bytes of the protobuf cell of a row.
pub fn deserialize_protobuf_cell_data(row_data: &[(String, Vec<u8>)], table: &str, key: &str) -> (payload:
    Result<Vec<u8>, Error>)
    ensures
        named_payload(row_data@, proto_cell(), object_id(table@, key@)) == match payload {
            Ok(p) => Ok::<Seq<u8>, ErrorView>(p@),
            Err(e) => Err(e@),
        },
{
    proof {
        reveal_strlit("x:proto");
    }
    assert("x:proto"@ =~= proto_cell());
    payload_of(row_data, "x:proto", table, key)
}

/// The plain bytes of the legacy binary cell of a row.
pub fn deserialize_bincode_cell_data(row_data: &[(String, Vec<u8>)], table: &str, key: &str) -> (payload:
    Result<Vec<u8>, Error>)
    ensures
        named_payload(row_data@, bin_cell(), object_id(table@, key@)) == match payload {
            Ok(p) => Ok::<Seq<u8>, ErrorView>(p@),
            Err(e) => Err(e@),
        },
{
    proof {
        reveal_strlit("x:bin");
    }
    assert("x:bin"@ =~= bin_cell());
    payload_of(row_data, "x:bin", table, key)
}

/// The plain bytes of the record of a row, and the encoding they are in.
pub fn deserialize_protobuf_or_bincode_cell_data(
    row_data: &[(String, Vec<u8>)],
    table: &str,
    key: &str,
) -> (payload: Result<CellData<Vec<u8>, Vec<u8>>, Error>)
    ensures
        record_payload(row_data@, object_id(table@, key@)) == match payload {
            Ok(p) => Ok::<CellData<Seq<u8>, Seq<u8>>, ErrorView>(payload_view(p)),
            Err(e) => Err(e@),
        },
{
    match deserialize_protobuf_cell_data(row_data, table, key) {
        Ok(plain) => Ok(CellData::Protobuf(plain)),
        Err(Error::ObjectNotFound(_)) => match deserialize_bincode_cell_data(row_data, table, key) {
            Ok(plain) => Ok(CellData::Bincode(plain)),
            Err(e) => Err(e),
        },
        Err(e) => Err(e),
    }
}

/// What is made of a record once its bytes were handed to a decoder: the
/// record where the decoder gave one, else the error that names the cell.
pub fn decoded_or_corrupt<T>(decoded: Option<T>, table: &str, key: &str) -> (record: Result<
    T,
    Error,
>)
    ensures
        match record {
            Ok(r) => decoded == Some(r),
            Err(e) => decoded is None && e@ == ErrorView::ObjectCorrupt(object_id(table@, key@)),
        },
{
    match decoded {
        Some(record) => Ok(record),
        None => Err(Error::ObjectCorrupt(object_name(table, key))),
    }
}

} // verus!
