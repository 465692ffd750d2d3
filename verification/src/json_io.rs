//! Turning JSON text into file content and back, with optional compression.
//!
//! A record travels through this module as the JSON text that stands for it.
//! Reading and writing the file itself is the caller's business: a read comes
//! in as a [`FileRead`], and what should be written goes out as bytes.

use crate::error::StoreError;
use vstd::prelude::*;
use vstd::string::*;
use vstd::utf8::*;

verus! {

broadcast use vstd::utf8::group_utf8_lib;

/// An I/O failure as the standard library reports it. Nothing is known of
/// its content here.
#[verifier::external_type_specification]
#[verifier::external_body]
pub struct ExIoError(std::io::Error);

/// The error of `String::from_utf8`. Nothing is known of its content here.
#[verifier::external_type_specification]
#[verifier::external_body]
pub struct ExFromUtf8Error(std::string::FromUtf8Error);

/// The error of `serde_json`'s conversions. Nothing is known of its content
/// here.
#[verifier::external_type_specification]
#[verifier::external_body]
pub struct ExJsonError(serde_json::Error);

/// The level handed to the compressor: zero selects its default.
pub const COMPRESSION_LEVEL: i32 = 0;

/// The text of a collection that holds no record.
pub open spec fn empty_collection() -> Seq<char> {
    "[]"@
}

/// What `zstd::encode_all` yields for `content` at `level`: the frames, or
/// `None` where it fails.
pub uninterp spec fn zstd_frames(content: Seq<u8>, level: int) -> Option<Seq<u8>>;

/// What `zstd::decode_all` yields for `frames`: the content that the frames
/// were made from, or `None` where it fails.
pub uninterp spec fn zstd_content(frames: Seq<u8>) -> Option<Seq<u8>>;

/// What the compressor or the decompressor returned, as a sequence of bytes:
/// `None` where it failed.
pub open spec fn bytes_view(outcome: Result<Vec<u8>, std::io::Error>) -> Option<Seq<u8>> {
    match outcome {
        Ok(bytes) => Some(bytes@),
        Err(_) => None,
    }
}

/// Whether `frames` begins with the four bytes that open every zstd frame.
pub open spec fn starts_with_magic(frames: Seq<u8>) -> bool {
    &&& frames.len() >= 4
    &&& frames[0] == 0x28
    &&& frames[1] == 0xb5
    &&& frames[2] == 0x2f
    &&& frames[3] == 0xfd
}

/// What is known of the frames that the compressor made of `content`: they
/// begin as every zstd frame does, and they decompress to the content.
pub open spec fn frames_of(content: Seq<u8>, frames: Seq<u8>) -> bool {
    &&& starts_with_magic(frames)
    &&& zstd_content(frames) == Some(content)
}

/// Calls `zstd::encode_all` on `content`.
///
/// Trusted: the outcome of the call, failure included, depends on the
/// content and the level alone. Where it succeeds, the result is in the zstd
/// frame format, so it begins with the magic number of a frame, and
/// `zstd::decode_all` recovers `content` from it. The call panics only where
/// no memory can be had for the compressor.
#[verifier::external_body]
fn compress(content: &Vec<u8>, level: i32) -> (outcome: Result<Vec<u8>, std::io::Error>)
    ensures
        bytes_view(outcome) == zstd_frames(content@, level as int),
        outcome matches Ok(frames) ==> {
            &&& starts_with_magic(frames@)
            &&& zstd_content(frames@) == Some(content@)
        },
{
    zstd::encode_all(std::io::Cursor::new(content), level)
}

/// Calls `zstd::decode_all` on `frames`.
///
/// Trusted: the outcome of the call, failure included, depends on the bytes
/// alone.
#[verifier::external_body]
fn decompress(frames: &Vec<u8>) -> (outcome: Result<Vec<u8>, std::io::Error>)
    ensures
        bytes_view(outcome) == zstd_content(frames@),
{
    zstd::decode_all(std::io::Cursor::new(frames))
}

/// Calls `String::from_utf8` on `bytes`.
///
/// Trusted: the call succeeds exactly on valid UTF-8, and the string it
/// returns is made of the bytes it was given.
#[verifier::external_body]
fn utf8_text(bytes: Vec<u8>) -> (outcome: Result<String, std::string::FromUtf8Error>)
    ensures
        outcome is Ok <==> valid_utf8(bytes@),
        outcome matches Ok(text) ==> encode_utf8(text@) == bytes@,
{
    String::from_utf8(bytes)
}

/// What came of reading a record file.
#[derive(Debug)]
pub enum FileRead {
    /// The file exists and holds these bytes.
    Found(Vec<u8>),
    /// There is no such file.
    Missing,
    /// The file could not be read for another reason.
    Failed,
}

/// [`FileRead`] with the bytes as a sequence.
pub enum FileContent {
    /// The file exists and holds these bytes.
    Found(Seq<u8>),
    /// There is no such file.
    Missing,
    /// The file could not be read for another reason.
    Failed,
}

impl View for FileRead {
    type V = FileContent;

    open spec fn view(&self) -> FileContent {
        match *self {
            FileRead::Found(bytes) => FileContent::Found(bytes@),
            FileRead::Missing => FileContent::Missing,
            FileRead::Failed => FileContent::Failed,
        }
    }
}

/// The outcome of a load, with the text as a sequence of characters.
pub open spec fn loaded_view(outcome: Result<Option<String>, StoreError>) -> Result<
    Option<Seq<char>>,
    StoreError,
> {
    match outcome {
        Ok(Some(text)) => Ok(Some(text@)),
        Ok(None) => Ok(None),
        Err(e) => Err(e),
    }
}

/// The outcome of loading a collection, with the text as a sequence of
/// characters.
pub open spec fn collection_view(outcome: Result<String, StoreError>) -> Result<
    Seq<char>,
    StoreError,
> {
    match outcome {
        Ok(text) => Ok(text@),
        Err(e) => Err(e),
    }
}

/// The outcome of a save, with the content as a sequence of bytes.
pub open spec fn saved_view(outcome: Result<Vec<u8>, StoreError>) -> Result<Seq<u8>, StoreError> {
    match outcome {
        Ok(content) => Ok(content@),
        Err(e) => Err(e),
    }
}

/// The text that uncompressed content holds: none where there is no content,
/// and a decoding failure where the content is not UTF-8.
pub open spec fn text_in(plain: Seq<u8>) -> Result<Option<Seq<char>>, StoreError> {
    if plain.len() == 0 {
        Ok(None)
    } else if valid_utf8(plain) {
        Ok(Some(decode_utf8(plain)))
    } else {
        Err(StoreError::Decoding)
    }
}

/// What a file holds for a store that compresses or not, as `encode` says:
/// the text of a record or of a collection, or nothing. It is what loading
/// the file yields.
///
/// A missing file and a file of no bytes both hold nothing. Content that
/// does not decompress where the store compresses, or that is not UTF-8, is
/// a decoding failure.
pub open spec fn held(file: FileContent, encode: bool) -> Result<Option<Seq<char>>, StoreError> {
    match file {
        FileContent::Missing => Ok(None),
        FileContent::Failed => Err(StoreError::Io),
        FileContent::Found(content) => {
            if content.len() == 0 {
                Ok(None)
            } else if encode {
                match zstd_content(content) {
                    Some(plain) => text_in(plain),
                    None => Err(StoreError::Decoding),
                }
            } else {
                text_in(content)
            }
        },
    }
}

/// The text of the collection that a file holds: the empty collection where
/// it holds nothing.
pub open spec fn collection_of(loaded: Result<Option<Seq<char>>, StoreError>) -> Result<
    Seq<char>,
    StoreError,
> {
    match loaded {
        Ok(Some(text)) => Ok(text),
        Ok(None) => Ok(empty_collection()),
        Err(e) => Err(e),
    }
}

/// What saving yields for what the serializer returned (`None` where it
/// failed) in a store that compresses or not, as `encode` says.
///
/// Without compression the content is the UTF-8 bytes of the text. With it,
/// the content is the frames that the compressor makes of those bytes at
/// [`COMPRESSION_LEVEL`]. A record that was not serialized, or not
/// compressed, is an encoding failure.
pub open spec fn saved(json: Option<Seq<char>>, encode: bool) -> Result<Seq<u8>, StoreError> {
    match json {
        None => Err(StoreError::Encoding),
        Some(text) => {
            if encode {
                match zstd_frames(encode_utf8(text), COMPRESSION_LEVEL as int) {
                    Some(frames) => Ok(frames),
                    None => Err(StoreError::Encoding),
                }
            } else {
                Ok(encode_utf8(text))
            }
        },
    }
}

/// Whether `outcome` is the result of a save: it is what saving yields, and
/// where that is frames, they are frames of the text's bytes.
pub open spec fn saves(
    json: Option<Seq<char>>,
    encode: bool,
    outcome: Result<Seq<u8>, StoreError>,
) -> bool {
    &&& outcome == saved(json, encode)
    &&& match (json, outcome) {
        (Some(text), Ok(frames)) => encode ==> frames_of(encode_utf8(text), frames),
        _ => true,
    }
}

/// The text of a serializer's result, `None` where it failed.
pub open spec fn serialized_view(json: Result<String, serde_json::Error>) -> Option<Seq<char>> {
    match json {
        Ok(text) => Some(text@),
        Err(_) => None,
    }
}

/// Frames are never the bytes of a text: after the first byte of the magic
/// number, which is a character of its own, comes a byte that opens no
/// character.
pub proof fn lemma_frames_are_not_text(frames: Seq<u8>, text: Seq<char>)
    requires
        starts_with_magic(frames),
    ensures
        !valid_utf8(frames),
        frames != encode_utf8(text),
{
    let rest = pop_first_scalar(frames);
    assert(is_leading_byte_width_1(frames[0]));
    assert(rest == frames.subrange(1, frames.len() as int));
    assert(rest[0] == 0xb5);
    assert(!valid_first_scalar(rest));
    assert(!valid_utf8(rest));
    assert(!valid_utf8(frames));
}

/// Reads the text out of what the decompressor returned, or out of content
/// that was never compressed.
pub fn text_from(plain: Result<Vec<u8>, std::io::Error>) -> (outcome: Result<
    Option<String>,
    StoreError,
>)
    ensures
        loaded_view(outcome) == match plain {
            Ok(bytes) => text_in(bytes@),
            Err(_) => Err(StoreError::Decoding),
        },
{
    match plain {
        Err(_) => Err(StoreError::Decoding),
        Ok(bytes) => {
            let ghost given = bytes@;
            match utf8_text(bytes) {
                Err(_) => Err(StoreError::Decoding),
                Ok(text) => {
                    if text.as_str().is_empty() {
                        assert(given.len() == 0) by {
                            assert(encode_utf8(Seq::<char>::empty()).len() == 0);
                            assert(text@ =~= Seq::<char>::empty());
                        }
                        Ok(None)
                    } else {
                        assert(given.len() > 0) by {
                            if given.len() == 0 {
                                assert(decode_utf8(given) =~= Seq::<char>::empty());
                            }
                        }
                        Ok(Some(text))
                    }
                },
            }
        },
    }
}

/// Turns what the compressor returned into the content to write.
pub fn content_from(compressed: Result<Vec<u8>, std::io::Error>) -> (outcome: Result<
    Vec<u8>,
    StoreError,
>)
    ensures
        match compressed {
            Ok(frames) => outcome == Ok::<Vec<u8>, StoreError>(frames),
            Err(_) => outcome == Err::<Vec<u8>, StoreError>(StoreError::Encoding),
        },
{
    match compressed {
        Ok(frames) => Ok(frames),
        Err(_) => Err(StoreError::Encoding),
    }
}

/// Turns what the parser returned for a text into the record, or the
/// collection, that the text stands for. Text that the parser refused is a
/// decoding failure.
pub fn parsed<E>(outcome: Result<E, serde_json::Error>) -> (record: Result<E, StoreError>)
    ensures
        match outcome {
            Ok(value) => record == Ok::<E, StoreError>(value),
            Err(_) => record == Err::<E, StoreError>(StoreError::Decoding),
        },
{
    match outcome {
        Ok(value) => Ok(value),
        Err(_) => Err(StoreError::Decoding),
    }
}

/// Loads the JSON text of one record from what was read of its file.
///
/// Yields `None` where nothing is stored: the file is missing, or holds no
/// bytes, or holds a compressed nothing.
pub fn load_json(file: FileRead, encode: bool) -> (outcome: Result<Option<String>, StoreError>)
    ensures
        loaded_view(outcome) == held(file@, encode),
{
    match file {
        FileRead::Missing => Ok(None),
        FileRead::Failed => Err(StoreError::Io),
        FileRead::Found(bytes) => {
            if bytes.len() == 0 {
                Ok(None)
            } else if encode {
                text_from(decompress(&bytes))
            } else {
                text_from(Ok(bytes))
            }
        },
    }
}

/// Loads the JSON text of a collection from what was read of its file.
///
/// Where nothing is stored the collection is empty, and its text is `[]`.
pub fn load_json_vec(file: FileRead, encode: bool) -> (outcome: Result<String, StoreError>)
    ensures
        collection_view(outcome) == collection_of(held(file@, encode)),
{
    match load_json(file, encode) {
        Ok(Some(text)) => Ok(text),
        Ok(None) => Ok("[]".to_owned()),
        Err(e) => Err(e),
    }
}

/// Turns what the serializer returned for a record, or for a collection, into
/// the content of its file.
///
/// A record that the serializer refused is an encoding failure, and so is
/// text that the compressor refused.
pub fn save_json(json: Result<String, serde_json::Error>, encode: bool) -> (outcome: Result<
    Vec<u8>,
    StoreError,
>)
    ensures
        saves(serialized_view(json), encode, saved_view(outcome)),
{
    match json {
        Err(_) => Err(StoreError::Encoding),
        Ok(text) => {
            let content = text.as_str().as_bytes_vec();
            if encode {
                content_from(compress(&content, COMPRESSION_LEVEL))
            } else {
                Ok(content)
            }
        },
    }
}

} // verus!
