//! File content from JSON text, and back.

use json_db_rs::json_io::{
    content_from, load_json, load_json_vec, parsed, save_json, text_from, COMPRESSION_LEVEL,
};
use json_db_rs::{FileRead, StoreError};

fn refusal() -> serde_json::Error {
    serde_json::from_str::<u8>("x").unwrap_err()
}

fn failure() -> std::io::Error {
    std::io::Error::from(std::io::ErrorKind::Other)
}

#[test]
fn text_is_saved_as_its_bytes_without_compression() {
    let content = save_json(Ok("{\"name\":\"Zoë\"}".to_string()), false);

    assert_eq!(content, Ok("{\"name\":\"Zoë\"}".as_bytes().to_vec()));
    assert_eq!(save_json(Ok(String::new()), false), Ok(Vec::new()));
}

#[test]
fn text_is_saved_as_zstd_frames_with_compression() {
    let text = "{\"name\":\"YoYo\",\"age\":23,\"rank\":1,\"something\":\"Hi\"}";

    let content = save_json(Ok(text.to_string()), true).unwrap();

    assert_ne!(content, text.as_bytes().to_vec());
    assert_eq!(&content[..4], &[0x28, 0xb5, 0x2f, 0xfd]);
    assert_eq!(zstd::decode_all(&content[..]).unwrap(), text.as_bytes().to_vec());
    assert_eq!(content, zstd::encode_all(text.as_bytes(), 0).unwrap());
    assert_eq!(COMPRESSION_LEVEL, 0);
}

#[test]
fn a_record_that_was_not_serialized_is_an_encoding_failure() {
    assert_eq!(save_json(Err(refusal()), false), Err(StoreError::Encoding));
    assert_eq!(save_json(Err(refusal()), true), Err(StoreError::Encoding));
}

#[test]
fn content_from_keeps_the_frames_or_fails_as_encoding() {
    assert_eq!(content_from(Ok(vec![1, 2, 3])), Ok(vec![1, 2, 3]));
    assert_eq!(content_from(Err(failure())), Err(StoreError::Encoding));
}

#[test]
fn text_from_reads_utf8_or_fails_as_decoding() {
    assert_eq!(text_from(Ok(b"[1,2]".to_vec())), Ok(Some("[1,2]".to_string())));
    assert_eq!(text_from(Ok("\"Zoë\"".as_bytes().to_vec())), Ok(Some("\"Zoë\"".to_string())));
    assert_eq!(text_from(Ok(Vec::new())), Ok(None));
    assert_eq!(text_from(Ok(vec![0xff, 0xfe])), Err(StoreError::Decoding));
    assert_eq!(text_from(Ok(vec![b'a', 0xc3])), Err(StoreError::Decoding));
    assert_eq!(text_from(Err(failure())), Err(StoreError::Decoding));
}

#[test]
fn parsed_keeps_the_value_or_fails_as_decoding() {
    assert_eq!(parsed(serde_json::from_str::<Vec<u8>>("[1,2]")), Ok(vec![1, 2]));
    assert_eq!(parsed(serde_json::from_str::<Vec<u8>>("{}")), Err(StoreError::Decoding));
    assert_eq!(parsed::<u8>(Err(refusal())), Err(StoreError::Decoding));
}

#[test]
fn a_missing_file_holds_nothing() {
    assert_eq!(load_json(FileRead::Missing, true), Ok(None));
    assert_eq!(load_json(FileRead::Missing, false), Ok(None));
    assert_eq!(load_json_vec(FileRead::Missing, true), Ok("[]".to_string()));
    assert_eq!(load_json_vec(FileRead::Missing, false), Ok("[]".to_string()));
}

#[test]
fn a_file_of_no_bytes_holds_nothing() {
    assert_eq!(load_json(FileRead::Found(Vec::new()), true), Ok(None));
    assert_eq!(load_json(FileRead::Found(Vec::new()), false), Ok(None));
    assert_eq!(load_json_vec(FileRead::Found(Vec::new()), true), Ok("[]".to_string()));
    assert_eq!(load_json_vec(FileRead::Found(Vec::new()), false), Ok("[]".to_string()));
}

#[test]
fn a_compressed_nothing_holds_nothing() {
    let frames = zstd::encode_all(&b""[..], 0).unwrap();

    assert!(!frames.is_empty());
    assert_eq!(load_json(FileRead::Found(frames.clone()), true), Ok(None));
    assert_eq!(load_json_vec(FileRead::Found(frames), true), Ok("[]".to_string()));
}

#[test]
fn a_file_that_was_not_read_is_an_io_failure() {
    assert_eq!(load_json(FileRead::Failed, true), Err(StoreError::Io));
    assert_eq!(load_json(FileRead::Failed, false), Err(StoreError::Io));
    assert_eq!(load_json_vec(FileRead::Failed, true), Err(StoreError::Io));
    assert_eq!(load_json_vec(FileRead::Failed, false), Err(StoreError::Io));
}

#[test]
fn plain_content_is_loaded_as_its_text() {
    let file = FileRead::Found(b"{\"a\":1}".to_vec());

    assert_eq!(load_json(file, false), Ok(Some("{\"a\":1}".to_string())));
    assert_eq!(
        load_json_vec(FileRead::Found(b"[{\"a\":1}]".to_vec()), false),
        Ok("[{\"a\":1}]".to_string())
    );
}

#[test]
fn compressed_content_is_loaded_as_the_text_it_was_made_from() {
    let frames = zstd::encode_all(&b"{\"a\":1}"[..], 3).unwrap();

    assert_eq!(load_json(FileRead::Found(frames), true), Ok(Some("{\"a\":1}".to_string())));
}

#[test]
fn content_that_is_not_compressed_is_a_decoding_failure_where_compression_is_on() {
    let plain = FileRead::Found(b"{\"a\":1}".to_vec());

    assert_eq!(load_json(plain, true), Err(StoreError::Decoding));
    assert_eq!(
        load_json_vec(FileRead::Found(b"[]".to_vec()), true),
        Err(StoreError::Decoding)
    );
}

#[test]
fn frames_cut_short_are_a_decoding_failure() {
    let mut frames = zstd::encode_all(&b"This is a regular string"[..], 0).unwrap();
    frames.truncate(frames.len() - 2);

    assert_eq!(load_json(FileRead::Found(frames), true), Err(StoreError::Decoding));
}

#[test]
fn content_that_is_not_utf8_is_a_decoding_failure() {
    let frames = zstd::encode_all(&[0xc0u8, 0x80][..], 0).unwrap();

    assert_eq!(load_json(FileRead::Found(vec![0xc0, 0x80]), false), Err(StoreError::Decoding));
    assert_eq!(load_json(FileRead::Found(frames), true), Err(StoreError::Decoding));
}

#[test]
fn saved_text_is_loaded_back() {
    let texts = ["{}", "[]", "null", "{\"name\":\"Zoë\",\"tags\":[\"a\",\"b\"]}", " "];
    for encode in [true, false] {
        for text in texts {
            let content = save_json(Ok(text.to_string()), encode).unwrap();
            assert_eq!(load_json(FileRead::Found(content), encode), Ok(Some(text.to_string())));
        }
    }
}

#[test]
fn each_failure_has_its_message() {
    assert_eq!(StoreError::Io.message(), "file could not be accessed");
    assert_eq!(StoreError::Encoding.message(), "record could not be encoded");
    assert_eq!(StoreError::Decoding.message(), "file content is not a stored record");
}
