//! End-to-end tests of the archive walker over hand-built byte inputs.

use archive_analyzer::cursor::ByteCursor;
use archive_analyzer::model::ZipFile;
use archive_analyzer::reader::ZipFileReader;

fn push_u16(bytes: &mut Vec<u8>, value: u16) {
    bytes.extend_from_slice(&value.to_le_bytes());
}

fn push_u32(bytes: &mut Vec<u8>, value: u32) {
    bytes.extend_from_slice(&value.to_le_bytes());
}

/// Appends a whole local file header (signature included) and the
/// payload bytes.
fn push_local_entry(
    bytes: &mut Vec<u8>,
    flag: u16,
    compressed_size: u32,
    filename: &[u8],
    extra_field: &[u8],
    payload: &[u8],
) {
    push_u32(bytes, 0x04034b50);
    push_u16(bytes, 20); // minimum version
    push_u16(bytes, flag);
    push_u16(bytes, 8); // compression method
    push_u16(bytes, 0x7a3c); // last modification time
    push_u16(bytes, 0x5321); // last modification date
    push_u32(bytes, 0xdeadbeef); // crc32
    push_u32(bytes, compressed_size);
    push_u32(bytes, compressed_size); // uncompressed size
    push_u16(bytes, filename.len() as u16);
    push_u16(bytes, extra_field.len() as u16);
    bytes.extend_from_slice(filename);
    bytes.extend_from_slice(extra_field);
    bytes.extend_from_slice(payload);
}

/// Appends a whole central-directory file header (signature included).
fn push_cd_header(bytes: &mut Vec<u8>, filename: &[u8], local_header_offset: u32) {
    push_u32(bytes, 0x02014b50);
    push_u16(bytes, 20); // version made by
    push_u16(bytes, 20); // minimum version
    push_u16(bytes, 0); // general purpose flag
    push_u16(bytes, 8); // compression method
    push_u16(bytes, 0x7a3c); // last modification time
    push_u16(bytes, 0x5321); // last modification date
    push_u32(bytes, 0xdeadbeef); // crc32
    push_u32(bytes, 5); // compressed size
    push_u32(bytes, 5); // uncompressed size
    push_u16(bytes, filename.len() as u16);
    push_u16(bytes, 0); // extra field length
    push_u16(bytes, 0); // file comment length
    push_u16(bytes, 0); // disk start
    push_u16(bytes, 0); // internal attributes
    push_u32(bytes, 0); // external attributes
    push_u32(bytes, local_header_offset);
    bytes.extend_from_slice(filename);
}

/// Appends an end-of-central-directory record (signature included).
fn push_eocd(bytes: &mut Vec<u8>, records_total: u16, comment: &[u8]) {
    push_u32(bytes, 0x06054b50);
    push_u16(bytes, 0); // disk number
    push_u16(bytes, 0); // disk where the central directory starts
    push_u16(bytes, records_total);
    push_u16(bytes, records_total);
    push_u32(bytes, 46); // central directory size
    push_u32(bytes, 0); // recorded central directory offset
    push_u16(bytes, comment.len() as u16);
    bytes.extend_from_slice(comment);
}

fn parse(bytes: Vec<u8>) -> ZipFile {
    let mut cursor = ByteCursor::new(bytes);
    ZipFileReader::read(&mut cursor).expect("the walker always returns a model")
}

#[test]
fn minimal_single_entry_archive() {
    let mut bytes = Vec::new();
    push_local_entry(&mut bytes, 0, 5, b"a.tx", &[], b"hello");
    let cd_offset = bytes.len();
    assert_eq!(cd_offset, 4 + 26 + 4 + 5);
    push_cd_header(&mut bytes, b"a.tx", 0);
    push_eocd(&mut bytes, 1, &[]);

    let archive = parse(bytes);
    assert_eq!(archive.stored_files.len(), 1);
    let stored = &archive.stored_files[0];
    assert_eq!(stored.position, 0);
    assert_eq!(stored.offset_in_archive, 0);
    assert!(stored.found_in_central_directory);
    assert_eq!(stored.offset_from_central_directory, Some(cd_offset as isize));
    assert_eq!(stored.local_file_header.minimum_version, 20);
    assert_eq!(stored.local_file_header.general_purpose_flag, 0);
    assert_eq!(stored.local_file_header.compression_method, 8);
    assert_eq!(stored.local_file_header.file_last_modification_time, 0x7a3c);
    assert_eq!(stored.local_file_header.file_last_modification_date, 0x5321);
    assert_eq!(stored.local_file_header.crc32, 0xdeadbeef);
    assert_eq!(stored.local_file_header.compressed_size, 5);
    assert_eq!(stored.local_file_header.uncompressed_size, 5);
    assert_eq!(stored.local_file_header.filename, "a.tx");
    assert!(stored.local_file_header.extra_field.is_empty());
    assert_eq!(stored.file_data, b"hello".to_vec());
    assert!(stored.data_descriptor.is_none());

    let cd = archive.central_directory.as_ref().expect("central directory present");
    assert_eq!(cd.offset_from_start_of_archive, cd_offset);
    assert_eq!(cd.file_headers.len(), 1);
    let header = &cd.file_headers[0];
    assert_eq!(header.filename, "a.tx");
    assert_eq!(header.position, Some(0));
    assert_eq!(header.local_file_header_offset, 0);
    assert!(cd.digital_signature.is_none());
    assert_eq!(cd.end_of_central_directory_record.central_directory_records_total_number, 1);
}

#[test]
fn second_entry_hidden_from_central_directory() {
    let mut bytes = Vec::new();
    push_local_entry(&mut bytes, 0, 5, b"first", &[], b"aaaaa");
    let second_offset = bytes.len();
    push_local_entry(&mut bytes, 0, 5, b"other", &[], b"bbbbb");
    push_cd_header(&mut bytes, b"first", 0);
    push_eocd(&mut bytes, 1, &[]);

    let archive = parse(bytes);
    assert_eq!(archive.stored_files.len(), 2);
    assert!(archive.stored_files[0].found_in_central_directory);
    assert!(!archive.stored_files[1].found_in_central_directory);
    assert_eq!(archive.stored_files[1].position, 1);
    assert_eq!(archive.stored_files[1].offset_in_archive, second_offset);
    assert_eq!(archive.stored_files[1].offset_from_central_directory, None);
}

#[test]
fn damaged_region_is_skipped_by_resync() {
    let mut bytes = Vec::new();
    push_local_entry(&mut bytes, 0, 5, b"first", &[], b"aaaaa");
    bytes.extend_from_slice(&[0xaa; 17]);
    let second_offset = bytes.len();
    push_local_entry(&mut bytes, 0, 5, b"other", &[], b"bbbbb");
    let cd_offset = bytes.len();
    push_cd_header(&mut bytes, b"first", 0);
    push_cd_header(&mut bytes, b"other", second_offset as u32);
    push_eocd(&mut bytes, 2, &[]);

    let archive = parse(bytes);
    assert_eq!(archive.stored_files.len(), 2);
    assert_eq!(archive.stored_files[0].offset_in_archive, 0);
    assert_eq!(archive.stored_files[1].offset_in_archive, second_offset);
    assert!(archive.stored_files[0].found_in_central_directory);
    assert!(archive.stored_files[1].found_in_central_directory);
    let cd = archive.central_directory.as_ref().expect("central directory present");
    assert_eq!(cd.offset_from_start_of_archive, cd_offset);
    assert_eq!(cd.file_headers.len(), 2);
    assert_eq!(cd.file_headers[0].position, Some(0));
    assert_eq!(cd.file_headers[1].position, Some(1));
}

#[test]
fn missing_end_trailer_drops_central_directory() {
    let mut bytes = Vec::new();
    push_local_entry(&mut bytes, 0, 5, b"first", &[], b"aaaaa");
    push_cd_header(&mut bytes, b"first", 0);
    // No end-of-central-directory record.

    let archive = parse(bytes);
    assert_eq!(archive.stored_files.len(), 1);
    assert!(archive.central_directory.is_none());
    assert!(!archive.stored_files[0].found_in_central_directory);
}

#[test]
fn data_descriptor_entry() {
    let mut bytes = Vec::new();
    // Bit 3 of the general-purpose flag announces a data descriptor.
    push_local_entry(&mut bytes, 8, 3, b"dd", &[], b"xyz");
    push_u32(&mut bytes, 0x11223344); // descriptor crc32
    push_u32(&mut bytes, 3); // descriptor compressed size
    push_u32(&mut bytes, 9); // descriptor uncompressed size

    let archive = parse(bytes);
    assert_eq!(archive.stored_files.len(), 1);
    let stored = &archive.stored_files[0];
    assert_eq!(stored.file_data, b"xyz".to_vec());
    let descriptor = stored.data_descriptor.as_ref().expect("descriptor present");
    assert_eq!(descriptor.crc32, 0x11223344);
    assert_eq!(descriptor.compressed_size, 3);
    assert_eq!(descriptor.uncompressed_size, 9);
}

#[test]
fn digital_signature_in_central_directory() {
    let mut bytes = Vec::new();
    push_local_entry(&mut bytes, 0, 5, b"first", &[], b"aaaaa");
    let second_offset = bytes.len();
    push_local_entry(&mut bytes, 0, 5, b"other", &[], b"bbbbb");
    push_cd_header(&mut bytes, b"first", 0);
    push_cd_header(&mut bytes, b"other", second_offset as u32);
    push_u32(&mut bytes, 0x05054b50); // digital signature
    push_u16(&mut bytes, 6);
    bytes.extend_from_slice(b"signed");
    push_eocd(&mut bytes, 2, &[]);

    let archive = parse(bytes);
    let cd = archive.central_directory.as_ref().expect("central directory present");
    assert_eq!(cd.file_headers.len(), 2);
    let signature = cd.digital_signature.as_ref().expect("digital signature present");
    assert_eq!(signature.signature_data, b"signed".to_vec());
}

#[test]
fn single_entry_without_central_directory() {
    let mut bytes = Vec::new();
    push_local_entry(&mut bytes, 0, 5, b"alone", &[], b"aaaaa");

    let archive = parse(bytes);
    assert_eq!(archive.stored_files.len(), 1);
    assert_eq!(archive.stored_files[0].position, 0);
    assert_eq!(archive.stored_files[0].offset_in_archive, 0);
    assert!(!archive.stored_files[0].found_in_central_directory);
    assert_eq!(archive.stored_files[0].offset_from_central_directory, None);
    assert!(archive.central_directory.is_none());
}

#[test]
fn empty_input_yields_empty_model() {
    let archive = parse(Vec::new());
    assert!(archive.stored_files.is_empty());
    assert!(archive.archive_extra_data_record.is_none());
    assert!(archive.central_directory.is_none());
}

#[test]
fn unrecognized_prefix_triggers_resync_from_start() {
    let mut bytes = vec![0x10, 0x20, 0x30, 0x40, 0x50];
    let entry_offset = bytes.len();
    push_local_entry(&mut bytes, 0, 5, b"found", &[], b"aaaaa");

    let archive = parse(bytes);
    assert_eq!(archive.stored_files.len(), 1);
    assert_eq!(archive.stored_files[0].offset_in_archive, entry_offset);
    assert!(!archive.stored_files[0].found_in_central_directory);
    assert!(archive.central_directory.is_none());
}

#[test]
fn oversized_compressed_size_reads_short_payload() {
    let mut bytes = Vec::new();
    // The header promises 100 payload bytes; only 6 follow.
    push_local_entry(&mut bytes, 0, 100, b"short", &[], b"abcdef");

    let archive = parse(bytes);
    assert_eq!(archive.stored_files.len(), 1);
    let stored = &archive.stored_files[0];
    assert_eq!(stored.local_file_header.compressed_size, 100);
    assert_eq!(stored.file_data, b"abcdef".to_vec());
    assert!(archive.central_directory.is_none());
}

#[test]
fn archive_extra_data_record_is_captured() {
    let mut bytes = Vec::new();
    push_local_entry(&mut bytes, 0, 5, b"first", &[], b"aaaaa");
    push_u32(&mut bytes, 0x08064b50); // archive extra data record
    push_u32(&mut bytes, 4);
    bytes.extend_from_slice(b"meta");
    let cd_offset = bytes.len();
    push_cd_header(&mut bytes, b"first", 0);
    push_eocd(&mut bytes, 1, &[]);

    let archive = parse(bytes);
    let extra = archive.archive_extra_data_record.as_ref().expect("extra data present");
    assert_eq!(extra.extra_field, b"meta".to_vec());
    let cd = archive.central_directory.as_ref().expect("central directory present");
    assert_eq!(cd.offset_from_start_of_archive, cd_offset);
}

#[test]
fn parsing_twice_yields_equal_models() {
    let mut bytes = Vec::new();
    push_local_entry(&mut bytes, 0, 5, b"first", &[], b"aaaaa");
    bytes.extend_from_slice(&[0xaa; 7]);
    push_cd_header(&mut bytes, b"first", 0);
    push_eocd(&mut bytes, 1, b"note");

    let first = parse(bytes.clone());
    let second = parse(bytes);
    assert_eq!(first, second);
}

#[test]
fn total_retained_bytes_match_compressed_sizes() {
    let mut bytes = Vec::new();
    push_local_entry(&mut bytes, 0, 5, b"first", &[], b"aaaaa");
    push_local_entry(&mut bytes, 0, 3, b"other", &[], b"bbb");

    let archive = parse(bytes);
    let total_payload: usize = archive.stored_files.iter().map(|s| s.file_data.len()).sum();
    let total_compressed: u64 = archive
        .stored_files
        .iter()
        .map(|s| s.local_file_header.compressed_size as u64)
        .sum();
    assert_eq!(total_payload as u64, total_compressed);
    assert_eq!(total_payload, 8);
}

#[test]
fn truncated_filename_is_kept_as_read() {
    let mut bytes = Vec::new();
    // The filename length promises 8 bytes but the input ends after 3.
    push_u32(&mut bytes, 0x04034b50);
    push_u16(&mut bytes, 20);
    push_u16(&mut bytes, 0);
    push_u16(&mut bytes, 0);
    push_u16(&mut bytes, 0);
    push_u16(&mut bytes, 0);
    push_u32(&mut bytes, 0);
    push_u32(&mut bytes, 0);
    push_u32(&mut bytes, 0);
    push_u16(&mut bytes, 8);
    push_u16(&mut bytes, 0);
    bytes.extend_from_slice(b"abc");

    let archive = parse(bytes);
    assert_eq!(archive.stored_files.len(), 1);
    assert_eq!(archive.stored_files[0].local_file_header.filename, "abc");
    assert!(archive.stored_files[0].file_data.is_empty());
}
