//! Message data encodings: a serialization format, optionally followed by compression.
use crate::errors::{Error, Id, IsError, Level};
use crate::events::ModuleSource;
use crate::message::compression::{
    compress_result, decompress_result, deflate_compress_result, deflate_decompress_result, gzip_compress_result,
    gzip_decompress_result, io_view, lz4_compress_result, lz4_decompress_result, zlib_compress_result,
    zlib_decompress_result, Compression,
};
use crate::text::push_str;
use vstd::prelude::*;

verus! {

/// Message encoding format
#[derive(Clone, Copy, Debug, PartialEq, Eq, Structural, Hash)]
pub enum Encoding {
    /// Bincode
    Bincode(Option<Compression>),
    /// CBOR
    CBOR(Option<Compression>),
    /// JSON
    JSON(Option<Compression>),
}

/// The name of a compression mode.
pub open spec fn compression_name(c: Compression) -> Seq<char> {
    match c {
        Compression::Deflate => "Deflate"@,
        Compression::Zlib => "Zlib"@,
        Compression::Gzip => "Gzip"@,
        Compression::Snappy => "Snappy"@,
        Compression::Lz4 => "Lz4"@,
    }
}

/// The debug text of an optional compression mode: `None` or `Some(<name>)`.
pub open spec fn compression_option_text(c: Option<Compression>) -> Seq<char> {
    match c {
        None => "None"@,
        Some(c) => "Some("@ + compression_name(c) + ")"@,
    }
}

/// The text of an encoding: the format's name and, in brackets, its compression.
pub open spec fn encoding_text(e: Encoding) -> Seq<char> {
    match e {
        Encoding::Bincode(c) => "Bincode("@ + compression_option_text(c) + ")"@,
        Encoding::CBOR(c) => "CBOR("@ + compression_option_text(c) + ")"@,
        Encoding::JSON(c) => "JSON("@ + compression_option_text(c) + ")"@,
    }
}

fn push_compression_name(s: &mut String, c: Compression)
    ensures
        final(s)@ == old(s)@ + compression_name(c),
{
    match c {
        Compression::Deflate => push_str(s, "Deflate"),
        Compression::Zlib => push_str(s, "Zlib"),
        Compression::Gzip => push_str(s, "Gzip"),
        Compression::Snappy => push_str(s, "Snappy"),
        Compression::Lz4 => push_str(s, "Lz4"),
    }
}

fn push_compression_option(s: &mut String, c: Option<Compression>)
    ensures
        final(s)@ == old(s)@ + compression_option_text(c),
{
    match c {
        None => push_str(s, "None"),
        Some(c) => {
            push_str(s, "Some(");
            push_compression_name(s, c);
            push_str(s, ")");
        },
    }
}

/// What compressing `data` with `c` gives: the outcome of the library's codec, or, for a
/// codec that the application calls (Snappy), the outcome that the application reports.
pub open spec fn compression_outcome(
    c: Compression,
    data: Seq<u8>,
    external: Option<Result<Seq<u8>, Seq<char>>>,
) -> Result<Seq<u8>, Seq<char>> {
    if c.is_native() {
        compress_result(c, data)
    } else {
        external->0
    }
}

/// What decompressing `data` with `c` gives: the outcome of the library's codec, or, for a
/// codec that the application calls (Snappy), the outcome that the application reports.
pub open spec fn decompression_outcome(
    c: Compression,
    data: Seq<u8>,
    external: Option<Result<Seq<u8>, Seq<char>>>,
) -> Result<Seq<u8>, Seq<char>> {
    if c.is_native() {
        decompress_result(c, data)
    } else {
        external->0
    }
}

/// What encoding data that serialized to `serialized` gives: the serialization error, or the
/// serialized bytes compressed when the encoding asks for it (by the outcome `external` for a
/// codec that the application calls).
pub open spec fn encode_outcome(
    e: Encoding,
    serialized: Result<Seq<u8>, Seq<char>>,
    external: Option<Result<Seq<u8>, Seq<char>>>,
) -> Result<Seq<u8>, Seq<char>> {
    match serialized {
        Err(m) => Err(m),
        Ok(data) => match e.compression() {
            Some(c) => compression_outcome(c, data, external),
            None => Ok(data),
        },
    }
}

/// What the decompression step of decoding gives for `data` (by the outcome `external` for a
/// codec that the application calls).
pub open spec fn decode_outcome(e: Encoding, data: Seq<u8>, external: Option<Result<Seq<u8>, Seq<char>>>) -> Result<
    Seq<u8>,
    Seq<char>,
> {
    match e.compression() {
        Some(c) => decompression_outcome(c, data, external),
        None => Ok(data),
    }
}

/// The plain view of the outcome of a codec that the application calls.
pub open spec fn external_view(r: Option<Result<Vec<u8>, String>>) -> Option<Result<Seq<u8>, Seq<char>>> {
    match r {
        Some(x) => Some(serialized_view(x)),
        None => None,
    }
}

/// The plain view of a serializer's outcome.
pub open spec fn serialized_view(r: Result<Vec<u8>, String>) -> Result<Seq<u8>, Seq<char>> {
    match r {
        Ok(v) => Ok(v@),
        Err(m) => Err(m@),
    }
}

impl Encoding {
    /// The compression that follows serialization.
    pub open spec fn compression(self) -> Option<Compression> {
        match self {
            Encoding::Bincode(c) => c,
            Encoding::CBOR(c) => c,
            Encoding::JSON(c) => c,
        }
    }

    /// Whether this library calls the compression codec of the encoding itself.
    pub open spec fn is_native(self) -> bool {
        match self.compression() {
            Some(c) => c.is_native(),
            None => true,
        }
    }

    /// Returns the compression that follows serialization.
    pub fn get_compression(&self) -> (r: Option<Compression>)
        ensures
            r == self.compression(),
    {
        match self {
            Encoding::Bincode(c) => *c,
            Encoding::CBOR(c) => *c,
            Encoding::JSON(c) => *c,
        }
    }

    /// The encoding as text, e.g. `Bincode(Some(Snappy))`.
    pub fn to_string(&self) -> (s: String)
        ensures
            s@ == encoding_text(*self),
    {
        let mut s = String::new();
        match self {
            Encoding::Bincode(c) => {
                push_str(&mut s, "Bincode(");
                push_compression_option(&mut s, *c);
            },
            Encoding::CBOR(c) => {
                push_str(&mut s, "CBOR(");
                push_compression_option(&mut s, *c);
            },
            Encoding::JSON(c) => {
                push_str(&mut s, "JSON(");
                push_compression_option(&mut s, *c);
            },
        }
        push_str(&mut s, ")");
        s
    }

    /// Finishes encoding data that the format's serializer turned into `serialized`: a
    /// serializer failure, or a compression failure, becomes a [`SerializationError`] for this
    /// encoding; otherwise the serialized bytes are compressed as the encoding asks. For a codec
    /// that the application calls (Snappy), `external` is what it made of the serialized bytes;
    /// it is not looked at otherwise.
    pub fn encode(&self, serialized: Result<Vec<u8>, String>, external: Option<Result<Vec<u8>, String>>) -> (r:
        Result<Vec<u8>, Error>)
        requires
            !self.is_native() && serialized is Ok ==> external is Some,
        ensures
            r is Ok <==> encode_outcome(*self, serialized_view(serialized), external_view(external)) is Ok,
            r matches Ok(v) ==> encode_outcome(*self, serialized_view(serialized), external_view(external))
                == Ok::<Seq<u8>, Seq<char>>(v@),
            r matches Err(e) ==> is_serialization_error(
                e,
                *self,
                serialized_view(serialized),
                external_view(external),
            ),
    {
        match serialized {
            Err(msg) => Err(SerializationError::new(*self, msg).to_error(here(224))),
            Ok(data) => match self.get_compression() {
                Some(Compression::Snappy) => match external {
                    Some(Ok(v)) => Ok(v),
                    Some(Err(msg)) => Err(SerializationError::new(*self, msg).to_error(here(228))),
                    None => {
                        assert(false);
                        Ok(data)
                    },
                },
                Some(c) => match c.compress(data.as_slice(), None) {
                    Ok(v) => Ok(v),
                    Err(err) => Err(SerializationError::new(*self, err.message).to_error(here(236))),
                },
                None => Ok(data),
            },
        }
    }

    /// The decompression step of decoding: the data decompressed when the encoding asks for
    /// it; a decompression failure becomes a [`DeserializationError`] for this encoding. For a
    /// codec that the application calls (Snappy), `external` is what it made of the data; it is
    /// not looked at otherwise. The format's deserializer then reads what this returns.
    pub fn decode(&self, data: &[u8], external: Option<Result<Vec<u8>, String>>) -> (r: Result<Vec<u8>, Error>)
        requires
            !self.is_native() ==> external is Some,
        ensures
            r is Ok <==> decode_outcome(*self, data@, external_view(external)) is Ok,
            r matches Ok(v) ==> decode_outcome(*self, data@, external_view(external)) == Ok::<
                Seq<u8>,
                Seq<char>,
            >(v@),
            r matches Err(e) ==> is_deserialization_error(e, *self, data@, external_view(external)),
    {
        match self.get_compression() {
            Some(Compression::Snappy) => match external {
                Some(Ok(v)) => Ok(v),
                Some(Err(msg)) => Err(self.deserialization_failed(msg.as_str())),
                None => {
                    assert(false);
                    Ok(vstd::slice::slice_to_vec(data))
                },
            },
            Some(c) => match c.decompress(data, None) {
                Ok(v) => Ok(v),
                Err(err) => Err(self.deserialization_failed(err.message.as_str())),
            },
            None => {
                let v = vstd::slice::slice_to_vec(data);
                Ok(v)
            },
        }
    }

    /// The error for data that the format's deserializer could not read.
    pub fn deserialization_failed(&self, msg: &str) -> (e: Error)
        ensures
            e.spec_id() == Id(DeserializationError::ERROR_ID),
            e.spec_level() == Level::Error,
            e.spec_message() == deserialization_error_text(*self, msg@),
    {
        DeserializationError::new(*self, msg.to_owned()).to_error(here(285))
    }
}

fn here(line: u32) -> (m: ModuleSource)
    ensures
        m.path() == "oysterpack::message::encoding"@,
        m.line_number() == line,
{
    ModuleSource::new("oysterpack::message::encoding", line)
}

/// The error that encoding with `e` gives when encoding `serialized` fails: a
/// [`SerializationError`] for the encoding, with the failure's text.
pub open spec fn is_serialization_error(
    err: Error,
    e: Encoding,
    serialized: Result<Seq<u8>, Seq<char>>,
    external: Option<Result<Seq<u8>, Seq<char>>>,
) -> bool {
    &&& err.spec_id() == Id(SerializationError::ERROR_ID)
    &&& err.spec_level() == Level::Error
    &&& err.spec_message() == serialization_error_text(e, encode_outcome(e, serialized, external)->Err_0)
}

/// The error that decoding `data` with `e` gives when decompression fails: a
/// [`DeserializationError`] for the encoding, with the failure's text.
pub open spec fn is_deserialization_error(
    err: Error,
    e: Encoding,
    data: Seq<u8>,
    external: Option<Result<Seq<u8>, Seq<char>>>,
) -> bool {
    &&& err.spec_id() == Id(DeserializationError::ERROR_ID)
    &&& err.spec_level() == Level::Error
    &&& err.spec_message() == deserialization_error_text(e, decode_outcome(e, data, external)->Err_0)
}

/// Without compression, decoding gives back exactly the serialized bytes that encoding gave.
pub proof fn law_uncompressed_roundtrip(e: Encoding, data: Seq<u8>, external: Option<Result<Seq<u8>, Seq<char>>>)
    requires
        e.compression() is None,
    ensures
        encode_outcome(e, Ok(data), external) == Ok::<Seq<u8>, Seq<char>>(data),
        decode_outcome(e, data, external) == Ok::<Seq<u8>, Seq<char>>(data),
{
}

/// Decoding gives back what encoding made of the serialized bytes: without compression
/// always, and with a codec whenever the codec gives back what it compressed (a property of
/// the codec, not of this library, which the codec names cannot state; see
/// [`law_uncompressed_roundtrip`]). `compressed` and `decompressed` are what a codec that the
/// application calls reported for the two steps.
pub proof fn law_roundtrip(
    e: Encoding,
    data: Seq<u8>,
    compressed: Option<Result<Seq<u8>, Seq<char>>>,
    decompressed: Option<Result<Seq<u8>, Seq<char>>>,
)
    requires
        e.compression() matches Some(c) ==> (compression_outcome(c, data, compressed) is Ok
            ==> decompression_outcome(c, compression_outcome(c, data, compressed)->Ok_0, decompressed)
            == Ok::<Seq<u8>, Seq<char>>(data)),
    ensures
        encode_outcome(e, Ok(data), compressed) is Ok ==> decode_outcome(
            e,
            encode_outcome(e, Ok(data), compressed)->Ok_0,
            decompressed,
        ) == Ok::<Seq<u8>, Seq<char>>(data),
{
}

/// The text of a serialization failure.
pub open spec fn serialization_error_text(e: Encoding, msg: Seq<char>) -> Seq<char> {
    encoding_text(e) + " serialization failed: "@ + msg
}

/// The text of a deserialization failure.
pub open spec fn deserialization_error_text(e: Encoding, msg: Seq<char>) -> Seq<char> {
    encoding_text(e) + " deserialization failed: "@ + msg
}

/// Serialization failed for the encoding.
pub struct SerializationError {
    encoding: Encoding,
    err_msg: String,
}

impl SerializationError {
    /// The encoding that failed.
    pub closed spec fn spec_encoding(&self) -> Encoding {
        self.encoding
    }

    /// What the serializer reported.
    pub closed spec fn spec_err_msg(&self) -> Seq<char> {
        self.err_msg@
    }

    /// Error Id(01CXMQQXSBYCJWWS916JDJN136)
    pub const ERROR_ID: u128 = 1866174046782305267123345584340763750;

    /// constructor
    pub fn new(encoding: Encoding, err_msg: String) -> (r: SerializationError)
        ensures
            r.spec_encoding() == encoding,
            r.spec_err_msg() == err_msg@,
    {
        SerializationError { encoding, err_msg }
    }
}

impl IsError for SerializationError {
    open spec fn spec_error_id(&self) -> Id {
        Id(Self::ERROR_ID)
    }

    open spec fn spec_error_level(&self) -> Level {
        Level::Error
    }

    open spec fn spec_error_message(&self) -> Seq<char> {
        serialization_error_text(self.spec_encoding(), self.spec_err_msg())
    }

    fn error_id(&self) -> (r: Id) {
        Id(Self::ERROR_ID)
    }

    fn error_level(&self) -> (r: Level) {
        Level::Error
    }

    fn error_message(&self) -> (r: String) {
        let mut s = self.encoding.to_string();
        push_str(&mut s, " serialization failed: ");
        push_str(&mut s, self.err_msg.as_str());
        s
    }
}

/// Deserialization failed for the encoding.
pub struct DeserializationError {
    encoding: Encoding,
    err_msg: String,
}

impl DeserializationError {
    /// The encoding that failed.
    pub closed spec fn spec_encoding(&self) -> Encoding {
        self.encoding
    }

    /// What the serializer reported.
    pub closed spec fn spec_err_msg(&self) -> Seq<char> {
        self.err_msg@
    }

    /// Error Id(01CXMRB1X1K091BFNN6X37DVDF)
    pub const ERROR_ID: u128 = 1866174804543832457347080642119527855;

    /// constructor
    pub fn new(encoding: Encoding, err_msg: String) -> (r: DeserializationError)
        ensures
            r.spec_encoding() == encoding,
            r.spec_err_msg() == err_msg@,
    {
        DeserializationError { encoding, err_msg }
    }
}

impl IsError for DeserializationError {
    open spec fn spec_error_id(&self) -> Id {
        Id(Self::ERROR_ID)
    }

    open spec fn spec_error_level(&self) -> Level {
        Level::Error
    }

    open spec fn spec_error_message(&self) -> Seq<char> {
        deserialization_error_text(self.spec_encoding(), self.spec_err_msg())
    }

    fn error_id(&self) -> (r: Id) {
        Id(Self::ERROR_ID)
    }

    fn error_level(&self) -> (r: Level) {
        Level::Error
    }

    fn error_message(&self) -> (r: String) {
        let mut s = self.encoding.to_string();
        push_str(&mut s, " deserialization failed: ");
        push_str(&mut s, self.err_msg.as_str());
        s
    }
}

/// An encoding applies the codec it names, for every codec this library calls: encoding
/// compresses the serialized bytes with that codec, and the decompression step of decoding
/// decompresses with it (deflate, zlib and gzip as flate2 does them, lz4 as the lz4 crate does
/// it); a serialization failure is handed on as it is.
pub proof fn law_named_codec_applied(
    e: Encoding,
    data: Seq<u8>,
    msg: Seq<char>,
    external: Option<Result<Seq<u8>, Seq<char>>>,
)
    ensures
        encode_outcome(e, Err(msg), external) == Err::<Seq<u8>, Seq<char>>(msg),
        e.compression() == Some(Compression::Deflate) ==> encode_outcome(e, Ok(data), external)
            == deflate_compress_result(data) && decode_outcome(e, data, external) == deflate_decompress_result(data),
        e.compression() == Some(Compression::Zlib) ==> encode_outcome(e, Ok(data), external)
            == zlib_compress_result(data) && decode_outcome(e, data, external) == zlib_decompress_result(data),
        e.compression() == Some(Compression::Gzip) ==> encode_outcome(e, Ok(data), external)
            == gzip_compress_result(data) && decode_outcome(e, data, external) == gzip_decompress_result(data),
        e.compression() == Some(Compression::Lz4) ==> encode_outcome(e, Ok(data), external)
            == lz4_compress_result(data) && decode_outcome(e, data, external) == lz4_decompress_result(data),
        e.compression() == Some(Compression::Snappy) && external is Some ==> encode_outcome(e, Ok(data), external)
            == external->0 && decode_outcome(e, data, external) == external->0,
{
}

} // verus!
