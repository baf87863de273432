//! Compression of message data.
use vstd::prelude::*;

verus! {

/// An I/O error, held by its message.
#[derive(Debug)]
pub struct IoError {
    /// what went wrong
    pub message: String,
}

/// The outcome of an I/O operation that yields bytes, as plain values.
pub open spec fn io_view(r: Result<Vec<u8>, IoError>) -> Result<Seq<u8>, Seq<char>> {
    match r {
        Ok(v) => Ok(v@),
        Err(e) => Err(e.message@),
    }
}

/// What deflate (flate2, fast level) makes of the given bytes.
pub uninterp spec fn deflate_compress_result(data: Seq<u8>) -> Result<Seq<u8>, Seq<char>>;

/// What the deflate decoder (flate2) makes of the given bytes.
pub uninterp spec fn deflate_decompress_result(data: Seq<u8>) -> Result<Seq<u8>, Seq<char>>;

/// What zlib (flate2, fast level) makes of the given bytes.
pub uninterp spec fn zlib_compress_result(data: Seq<u8>) -> Result<Seq<u8>, Seq<char>>;

/// What the zlib decoder (flate2) makes of the given bytes.
pub uninterp spec fn zlib_decompress_result(data: Seq<u8>) -> Result<Seq<u8>, Seq<char>>;

/// What gzip (flate2, fast level) makes of the given bytes.
pub uninterp spec fn gzip_compress_result(data: Seq<u8>) -> Result<Seq<u8>, Seq<char>>;

/// What the gzip decoder (flate2) makes of the given bytes.
pub uninterp spec fn gzip_decompress_result(data: Seq<u8>) -> Result<Seq<u8>, Seq<char>>;

/// What the LZ4 frame encoder (lz4, default settings) makes of the given bytes.
pub uninterp spec fn lz4_compress_result(data: Seq<u8>) -> Result<Seq<u8>, Seq<char>>;

/// What the LZ4 frame decoder (lz4) makes of the given bytes.
pub uninterp spec fn lz4_decompress_result(data: Seq<u8>) -> Result<Seq<u8>, Seq<char>>;

/// Deflate compression with `flate2::bufread::DeflateEncoder` at `flate2::Compression::fast()`,
/// read to the end. The result is named by `deflate_compress_result`.
#[verifier::external_body]
fn deflate_compress(data: &[u8]) -> (r: Result<Vec<u8>, IoError>)
    ensures
        io_view(r) == deflate_compress_result(data@),
{
    let mut encoder = flate2::bufread::DeflateEncoder::new(data, flate2::Compression::fast());
    let mut buffer = Vec::new();
    match std::io::Read::read_to_end(&mut encoder, &mut buffer) {
        Ok(_) => Ok(buffer),
        Err(err) => Err(IoError { message: err.to_string() }),
    }
}

/// Deflate decompression with `flate2::bufread::DeflateDecoder`, read to the end. The result is
/// named by `deflate_decompress_result`.
#[verifier::external_body]
fn deflate_decompress(data: &[u8]) -> (r: Result<Vec<u8>, IoError>)
    ensures
        io_view(r) == deflate_decompress_result(data@),
{
    let mut decoder = flate2::bufread::DeflateDecoder::new(data);
    let mut buffer = Vec::new();
    match std::io::Read::read_to_end(&mut decoder, &mut buffer) {
        Ok(_) => Ok(buffer),
        Err(err) => Err(IoError { message: err.to_string() }),
    }
}

/// Zlib compression with `flate2::bufread::ZlibEncoder` at `flate2::Compression::fast()`,
/// read to the end. The result is named by `zlib_compress_result`.
#[verifier::external_body]
fn zlib_compress(data: &[u8]) -> (r: Result<Vec<u8>, IoError>)
    ensures
        io_view(r) == zlib_compress_result(data@),
{
    let mut encoder = flate2::bufread::ZlibEncoder::new(data, flate2::Compression::fast());
    let mut buffer = Vec::new();
    match std::io::Read::read_to_end(&mut encoder, &mut buffer) {
        Ok(_) => Ok(buffer),
        Err(err) => Err(IoError { message: err.to_string() }),
    }
}

/// Zlib decompression with `flate2::bufread::ZlibDecoder`, read to the end. The result is named
/// by `zlib_decompress_result`.
#[verifier::external_body]
fn zlib_decompress(data: &[u8]) -> (r: Result<Vec<u8>, IoError>)
    ensures
        io_view(r) == zlib_decompress_result(data@),
{
    let mut decoder = flate2::bufread::ZlibDecoder::new(data);
    let mut buffer = Vec::new();
    match std::io::Read::read_to_end(&mut decoder, &mut buffer) {
        Ok(_) => Ok(buffer),
        Err(err) => Err(IoError { message: err.to_string() }),
    }
}

/// Gzip compression with `flate2::bufread::GzEncoder` at `flate2::Compression::fast()`, read to
/// the end. The result is named by `gzip_compress_result`.
#[verifier::external_body]
fn gzip_compress(data: &[u8]) -> (r: Result<Vec<u8>, IoError>)
    ensures
        io_view(r) == gzip_compress_result(data@),
{
    let mut encoder = flate2::bufread::GzEncoder::new(data, flate2::Compression::fast());
    let mut buffer = Vec::new();
    match std::io::Read::read_to_end(&mut encoder, &mut buffer) {
        Ok(_) => Ok(buffer),
        Err(err) => Err(IoError { message: err.to_string() }),
    }
}

/// Gzip decompression with `flate2::bufread::GzDecoder`, read to the end. The result is named
/// by `gzip_decompress_result`.
#[verifier::external_body]
fn gzip_decompress(data: &[u8]) -> (r: Result<Vec<u8>, IoError>)
    ensures
        io_view(r) == gzip_decompress_result(data@),
{
    let mut decoder = flate2::bufread::GzDecoder::new(data);
    let mut buffer = Vec::new();
    match std::io::Read::read_to_end(&mut decoder, &mut buffer) {
        Ok(_) => Ok(buffer),
        Err(err) => Err(IoError { message: err.to_string() }),
    }
}

/// LZ4 frame compression: `lz4::EncoderBuilder::new().build(..)` on a `Vec`, one
/// `Write::write` of the data, then `finish`. The result is named by `lz4_compress_result`.
#[verifier::external_body]
fn lz4_compress(data: &[u8]) -> (r: Result<Vec<u8>, IoError>)
    ensures
        io_view(r) == lz4_compress_result(data@),
{
    let mut buf: Vec<u8> = Vec::new();
    let mut encoder = match lz4::EncoderBuilder::new().build(&mut buf) {
        Ok(encoder) => encoder,
        Err(err) => return Err(IoError { message: err.to_string() }),
    };
    if let Err(err) = std::io::Write::write(&mut encoder, data) {
        return Err(IoError { message: err.to_string() });
    }
    match encoder.finish() {
        (_, Ok(_)) => Ok(buf),
        (_, Err(err)) => Err(IoError { message: err.to_string() }),
    }
}

/// LZ4 frame decompression: `lz4::Decoder::new` over the data, copied to a `Vec` with
/// `std::io::copy`. The result is named by `lz4_decompress_result`.
#[verifier::external_body]
fn lz4_decompress(data: &[u8]) -> (r: Result<Vec<u8>, IoError>)
    ensures
        io_view(r) == lz4_decompress_result(data@),
{
    let mut buf: Vec<u8> = Vec::new();
    let mut decoder = match lz4::Decoder::new(data) {
        Ok(decoder) => decoder,
        Err(err) => return Err(IoError { message: err.to_string() }),
    };
    match std::io::copy(&mut decoder, &mut buf) {
        Ok(_) => Ok(buf),
        Err(err) => Err(IoError { message: err.to_string() }),
    }
}

/// Compression mode
#[derive(Clone, Copy, Debug, PartialEq, Eq, Structural, Hash)]
pub enum Compression {
    /// deflate
    Deflate,
    /// zlib
    Zlib,
    /// gzip
    Gzip,
    /// snappy
    Snappy,
    /// LZ4
    Lz4,
}

/// What compressing `data` with `c` gives (for every mode whose codec this library calls).
pub open spec fn compress_result(c: Compression, data: Seq<u8>) -> Result<Seq<u8>, Seq<char>> {
    match c {
        Compression::Deflate => deflate_compress_result(data),
        Compression::Zlib => zlib_compress_result(data),
        Compression::Gzip => gzip_compress_result(data),
        Compression::Lz4 => lz4_compress_result(data),
        Compression::Snappy => Err(seq![]),
    }
}

/// What decompressing `data` with `c` gives (for every mode whose codec this library calls).
pub open spec fn decompress_result(c: Compression, data: Seq<u8>) -> Result<Seq<u8>, Seq<char>> {
    match c {
        Compression::Deflate => deflate_decompress_result(data),
        Compression::Zlib => zlib_decompress_result(data),
        Compression::Gzip => gzip_decompress_result(data),
        Compression::Lz4 => lz4_decompress_result(data),
        Compression::Snappy => Err(seq![]),
    }
}

impl Compression {
    /// Whether the codec of this mode is called by this library; the Snappy codec is called by
    /// the application.
    pub open spec fn is_native(self) -> bool {
        !(self is Snappy)
    }

    /// compress the data. The Snappy codec is called by the application: for Snappy, `external`
    /// is what it made of the data, and it is handed back; it is not looked at otherwise.
    pub fn compress(&self, data: &[u8], external: Option<Result<Vec<u8>, IoError>>) -> (r: Result<
        Vec<u8>,
        IoError,
    >)
        requires
            !self.is_native() ==> external is Some,
        ensures
            self.is_native() ==> io_view(r) == compress_result(*self, data@),
            !self.is_native() ==> r == external->0,
    {
        match self {
            Compression::Deflate => deflate_compress(data),
            Compression::Zlib => zlib_compress(data),
            Compression::Gzip => gzip_compress(data),
            Compression::Lz4 => lz4_compress(data),
            Compression::Snappy => match external {
                Some(r) => r,
                None => {
                    assert(false);
                    Err(IoError { message: String::new() })
                },
            },
        }
    }

    /// decompress the data. The Snappy codec is called by the application: for Snappy,
    /// `external` is what it made of the data, and it is handed back; it is not looked at
    /// otherwise.
    pub fn decompress(&self, data: &[u8], external: Option<Result<Vec<u8>, IoError>>) -> (r: Result<
        Vec<u8>,
        IoError,
    >)
        requires
            !self.is_native() ==> external is Some,
        ensures
            self.is_native() ==> io_view(r) == decompress_result(*self, data@),
            !self.is_native() ==> r == external->0,
    {
        match self {
            Compression::Deflate => deflate_decompress(data),
            Compression::Zlib => zlib_decompress(data),
            Compression::Gzip => gzip_decompress(data),
            Compression::Lz4 => lz4_decompress(data),
            Compression::Snappy => match external {
                Some(r) => r,
                None => {
                    assert(false);
                    Err(IoError { message: String::new() })
                },
            },
        }
    }
}

} // verus!
