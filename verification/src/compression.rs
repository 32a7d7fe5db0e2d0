//! The frame of a stored cell: one byte that names the compression method,
//! then the payload in that method.

use std::io::Read;
use std::io::Write;
use vstd::prelude::*;

verus! {

/// How the payload of a cell is compressed. The order of the variants is the
/// order of their tags: 0, 1, 2, 3.
#[derive(Clone, Copy, Debug, PartialEq, Eq, Structural)]
pub enum CompressionMethod {
    NoCompression,
    Bzip2,
    Gzip,
    Zstd,
}

/// Why a cell could not be framed or unframed.
#[derive(Clone, Copy, Debug, PartialEq, Eq, Structural)]
pub enum CompressionError {
    /// The cell is empty: it has no method byte.
    DataTooSmall,
    /// The first byte names no method.
    UnknownMethod(u8),
    /// The codec of the method refused the payload.
    Codec(CompressionMethod),
}

/// What `bzip2::bufread::BzDecoder` reads out of a payload; `None` where it fails.
pub uninterp spec fn bzip2_decoded(payload: Seq<u8>) -> Option<Seq<u8>>;

/// What `flate2::read::GzDecoder` reads out of a payload; `None` where it fails.
pub uninterp spec fn gzip_decoded(payload: Seq<u8>) -> Option<Seq<u8>>;

/// What `zstd::stream::decode_all` reads out of a payload; `None` where it fails.
pub uninterp spec fn zstd_decoded(payload: Seq<u8>) -> Option<Seq<u8>>;

/// What `bzip2::write::BzEncoder` at its best level writes for a plain text;
/// `None` where it fails.
pub uninterp spec fn bzip2_encoded(plain: Seq<u8>) -> Option<Seq<u8>>;

/// What `flate2::write::GzEncoder` at its default level writes for a plain
/// text; `None` where it fails.
pub uninterp spec fn gzip_encoded(plain: Seq<u8>) -> Option<Seq<u8>>;

/// What `zstd::stream::encode_all` at its default level writes for a plain
/// text; `None` where it fails.
pub uninterp spec fn zstd_encoded(plain: Seq<u8>) -> Option<Seq<u8>>;

impl CompressionMethod {
    /// The byte that names the method in a frame.
    pub open spec fn tag(self) -> u8 {
        match self {
            CompressionMethod::NoCompression => 0,
            CompressionMethod::Bzip2 => 1,
            CompressionMethod::Gzip => 2,
            CompressionMethod::Zstd => 3,
        }
    }

    /// The method that a byte names.
    pub open spec fn of_tag(tag: u8) -> Option<CompressionMethod> {
        if tag == 0 {
            Some(CompressionMethod::NoCompression)
        } else if tag == 1 {
            Some(CompressionMethod::Bzip2)
        } else if tag == 2 {
            Some(CompressionMethod::Gzip)
        } else if tag == 3 {
            Some(CompressionMethod::Zstd)
        } else {
            None
        }
    }

    /// The plain bytes that a payload of this method holds.
    pub open spec fn decoded(self, payload: Seq<u8>) -> Option<Seq<u8>> {
        match self {
            CompressionMethod::NoCompression => Some(payload),
            CompressionMethod::Bzip2 => bzip2_decoded(payload),
            CompressionMethod::Gzip => gzip_decoded(payload),
            CompressionMethod::Zstd => zstd_decoded(payload),
        }
    }

    /// The payload that this method makes of plain bytes.
    pub open spec fn encoded(self, plain: Seq<u8>) -> Option<Seq<u8>> {
        match self {
            CompressionMethod::NoCompression => Some(plain),
            CompressionMethod::Bzip2 => bzip2_encoded(plain),
            CompressionMethod::Gzip => gzip_encoded(plain),
            CompressionMethod::Zstd => zstd_encoded(plain),
        }
    }

    /// The byte that names the method in a frame.
    pub fn to_byte(self) -> (tag: u8)
        ensures
            tag == self.tag(),
    {
        match self {
            CompressionMethod::NoCompression => 0,
            CompressionMethod::Bzip2 => 1,
            CompressionMethod::Gzip => 2,
            CompressionMethod::Zstd => 3,
        }
    }

    /// The method that a byte names.
    pub fn from_byte(tag: u8) -> (method: Option<CompressionMethod>)
        ensures
            method == Self::of_tag(tag),
    {
        match tag {
            0 => Some(CompressionMethod::NoCompression),
            1 => Some(CompressionMethod::Bzip2),
            2 => Some(CompressionMethod::Gzip),
            3 => Some(CompressionMethod::Zstd),
            _ => None,
        }
    }
}

/// A frame: the tag of the method, then the payload.
pub open spec fn framed(method: CompressionMethod, payload: Seq<u8>) -> Seq<u8> {
    seq![method.tag()] + payload
}

/// The method and the payload of a frame, or why it is none.
pub open spec fn unframed(data: Seq<u8>) -> Result<(CompressionMethod, Seq<u8>), CompressionError> {
    if data.len() == 0 {
        Err(CompressionError::DataTooSmall)
    } else {
        match CompressionMethod::of_tag(data[0]) {
            Some(method) => Ok((method, data.subrange(1, data.len() as int))),
            None => Err(CompressionError::UnknownMethod(data[0])),
        }
    }
}

/// The plain bytes of a stored cell, or why it has none.
pub open spec fn decompressed(data: Seq<u8>) -> Result<Seq<u8>, CompressionError> {
    match unframed(data) {
        Ok((method, payload)) => match method.decoded(payload) {
            Some(plain) => Ok(plain),
            None => Err(CompressionError::Codec(method)),
        },
        Err(e) => Err(e),
    }
}

/// The stored cell that a method makes of plain bytes, or why it makes none.
pub open spec fn compressed(method: CompressionMethod, plain: Seq<u8>) -> Result<
    Seq<u8>,
    CompressionError,
> {
    match method.encoded(plain) {
        Some(payload) => Ok(framed(method, payload)),
        None => Err(CompressionError::Codec(method)),
    }
}

/// The shorter of two cells; the first where neither is shorter.
pub open spec fn shorter(first: Seq<u8>, second: Seq<u8>) -> Seq<u8> {
    if second.len() < first.len() {
        second
    } else {
        first
    }
}

/// The stored cell of plain bytes when compression is asked for: the zstd
/// frame where it is shorter than the uncompressed frame, else that one.
pub open spec fn compressed_best(plain: Seq<u8>) -> Result<Seq<u8>, CompressionError> {
    match compressed(CompressionMethod::Zstd, plain) {
        Ok(packed) => Ok(shorter(framed(CompressionMethod::NoCompression, plain), packed)),
        Err(e) => Err(e),
    }
}

/// Reads a bzip2 stream to its end with `bzip2::bufread::BzDecoder`.
#[verifier::external_body]
fn bzip2_decode(payload: &[u8]) -> (plain: Option<Vec<u8>>)
    ensures
        bzip2_decoded(payload@) == match plain {
            Some(p) => Some(p@),
            None => None,
        },
{
    let mut plain = Vec::new();
    bzip2::bufread::BzDecoder::new(payload).read_to_end(&mut plain).ok().map(|_| plain)
}

/// Reads a gzip stream to its end with `flate2::read::GzDecoder`.
#[verifier::external_body]
fn gzip_decode(payload: &[u8]) -> (plain: Option<Vec<u8>>)
    ensures
        gzip_decoded(payload@) == match plain {
            Some(p) => Some(p@),
            None => None,
        },
{
    let mut plain = Vec::new();
    flate2::read::GzDecoder::new(payload).read_to_end(&mut plain).ok().map(|_| plain)
}

/// Reads a zstd stream to its end with `zstd::stream::decode_all`.
#[verifier::external_body]
fn zstd_decode(payload: &[u8]) -> (plain: Option<Vec<u8>>)
    ensures
        zstd_decoded(payload@) == match plain {
            Some(p) => Some(p@),
            None => None,
        },
{
    zstd::stream::decode_all(payload).ok()
}

/// Writes a bzip2 stream with `bzip2::write::BzEncoder` at its best level.
#[verifier::external_body]
fn bzip2_encode(plain: &[u8]) -> (payload: Option<Vec<u8>>)
    ensures
        bzip2_encoded(plain@) == match payload {
            Some(p) => Some(p@),
            None => None,
        },
{
    let mut encoder = bzip2::write::BzEncoder::new(Vec::new(), bzip2::Compression::best());
    encoder.write_all(plain).ok()?;
    encoder.finish().ok()
}

/// Writes a gzip stream with `flate2::write::GzEncoder` at its default level.
#[verifier::external_body]
fn gzip_encode(plain: &[u8]) -> (payload: Option<Vec<u8>>)
    ensures
        gzip_encoded(plain@) == match payload {
            Some(p) => Some(p@),
            None => None,
        },
{
    let mut encoder = flate2::write::GzEncoder::new(Vec::new(), flate2::Compression::default());
    encoder.write_all(plain).ok()?;
    encoder.finish().ok()
}

/// Writes a zstd stream with `zstd::stream::encode_all` at its default level.
#[verifier::external_body]
fn zstd_encode(plain: &[u8]) -> (payload: Option<Vec<u8>>)
    ensures
        zstd_encoded(plain@) == match payload {
            Some(p) => Some(p@),
            None => None,
        },
{
    zstd::stream::encode_all(plain, 0).ok()
}

/// Copies a slice.
fn to_vec(bytes: &[u8]) -> (copy: Vec<u8>)
    ensures
        copy@ == bytes@,
{
    let mut copy: Vec<u8> = Vec::new();
    let mut i: usize = 0;
    while i < bytes.len()
        invariant
            i <= bytes.len(),
            copy@ == bytes@.subrange(0, i as int),
        decreases bytes.len() - i,
    {
        copy.push(bytes[i]);
        assert(bytes@.subrange(0, i + 1) =~= bytes@.subrange(0, i as int).push(bytes@[i as int]));
        i = i + 1;
    }
    assert(bytes@.subrange(0, bytes.len() as int) =~= bytes@);
    copy
}

/// Splits a stored cell into its method and its payload.
pub fn split_frame(data: &[u8]) -> (parts: Result<(CompressionMethod, &[u8]), CompressionError>)
    ensures
        unframed(data@) == match parts {
            Ok((method, payload)) => Ok::<(CompressionMethod, Seq<u8>), CompressionError>(
                (method, payload@),
            ),
            Err(e) => Err(e),
        },
{
    if data.len() == 0 {
        return Err(CompressionError::DataTooSmall);
    }
    match CompressionMethod::from_byte(data[0]) {
        Some(method) => {
            let (_, payload) = data.split_at(1);
            Ok((method, payload))
        },
        None => Err(CompressionError::UnknownMethod(data[0])),
    }
}

/// Puts the tag of a method in front of a payload.
pub fn frame(method: CompressionMethod, payload: &[u8]) -> (data: Vec<u8>)
    ensures
        data@ == framed(method, payload@),
{
    let mut data: Vec<u8> = Vec::new();
    data.push(method.to_byte());
    let mut i: usize = 0;
    while i < payload.len()
        invariant
            i <= payload.len(),
            data@ == framed(method, payload@.subrange(0, i as int)),
        decreases payload.len() - i,
    {
        data.push(payload[i]);
        assert(payload@.subrange(0, i + 1) =~= payload@.subrange(0, i as int).push(
            payload@[i as int],
        ));
        assert(data@ =~= framed(method, payload@.subrange(0, i + 1)));
        i = i + 1;
    }
    assert(payload@.subrange(0, payload.len() as int) =~= payload@);
    data
}

/// The plain bytes of a stored cell.
pub fn decompress(data: &[u8]) -> (plain: Result<Vec<u8>, CompressionError>)
    ensures
        decompressed(data@) == match plain {
            Ok(p) => Ok::<Seq<u8>, CompressionError>(p@),
            Err(e) => Err(e),
        },
{
    match split_frame(data) {
        Err(e) => Err(e),
        Ok((method, payload)) => {
            let decoded = match method {
                CompressionMethod::NoCompression => Some(to_vec(payload)),
                CompressionMethod::Bzip2 => bzip2_decode(payload),
                CompressionMethod::Gzip => gzip_decode(payload),
                CompressionMethod::Zstd => zstd_decode(payload),
            };
            match decoded {
                Some(plain) => Ok(plain),
                None => Err(CompressionError::Codec(method)),
            }
        },
    }
}

/// The stored cell that a method makes of plain bytes.
pub fn compress(method: CompressionMethod, data: &[u8]) -> (cell: Result<
    Vec<u8>,
    CompressionError,
>)
    ensures
        compressed(method, data@) == match cell {
            Ok(c) => Ok::<Seq<u8>, CompressionError>(c@),
            Err(e) => Err(e),
        },
{
    let encoded = match method {
        CompressionMethod::NoCompression => Some(to_vec(data)),
        CompressionMethod::Bzip2 => bzip2_encode(data),
        CompressionMethod::Gzip => gzip_encode(data),
        CompressionMethod::Zstd => zstd_encode(data),
    };
    match encoded {
        Some(payload) => Ok(frame(method, payload.as_slice())),
        None => Err(CompressionError::Codec(method)),
    }
}

/// The shorter of two cells; the first where neither is shorter.
pub fn pick_shorter(first: Vec<u8>, second: Vec<u8>) -> (best: Vec<u8>)
    ensures
        best@ == shorter(first@, second@),
{
    if second.len() < first.len() {
        second
    } else {
        first
    }
}

/// The stored cell of plain bytes when compression is asked for.
pub fn compress_best(data: &[u8]) -> (cell: Result<Vec<u8>, CompressionError>)
    ensures
        compressed_best(data@) == match cell {
            Ok(c) => Ok::<Seq<u8>, CompressionError>(c@),
            Err(e) => Err(e),
        },
{
    match compress(CompressionMethod::Zstd, data) {
        Ok(packed) => Ok(pick_shorter(frame(CompressionMethod::NoCompression, data), packed)),
        Err(e) => Err(e),
    }
}

/// The stored cell of plain bytes: the best frame with compression, the
/// uncompressed frame without.
pub fn store(data: &[u8], use_compression: bool) -> (cell: Result<Vec<u8>, CompressionError>)
    ensures
        stored(data@, use_compression) == match cell {
            Ok(c) => Ok::<Seq<u8>, CompressionError>(c@),
            Err(e) => Err(e),
        },
{
    if use_compression {
        compress_best(data)
    } else {
        Ok(frame(CompressionMethod::NoCompression, data))
    }
}

/// What `store` writes.
pub open spec fn stored(plain: Seq<u8>, use_compression: bool) -> Result<Seq<u8>, CompressionError> {
    if use_compression {
        compressed_best(plain)
    } else {
        Ok(framed(CompressionMethod::NoCompression, plain))
    }
}

/// A cell that was framed without compression reads back as the bytes that
/// went in.
pub proof fn lemma_uncompressed_round_trip(plain: Seq<u8>)
    ensures
        decompressed(framed(CompressionMethod::NoCompression, plain)) == Ok::<
            Seq<u8>,
            CompressionError,
        >(plain),
{
    let data = framed(CompressionMethod::NoCompression, plain);
    assert(data.subrange(1, data.len() as int) =~= plain);
}

/// A frame splits into the method and the payload that it was made of.
pub proof fn lemma_frame_round_trip(method: CompressionMethod, payload: Seq<u8>)
    ensures
        unframed(framed(method, payload)) == Ok::<(CompressionMethod, Seq<u8>), CompressionError>(
            (method, payload),
        ),
{
    let data = framed(method, payload);
    assert(data.subrange(1, data.len() as int) =~= payload);
}

} // verus!
