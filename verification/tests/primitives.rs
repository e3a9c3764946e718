//! Tests of the primitive decoders, the cursor helpers and the
//! individual record readers.

use archive_analyzer::cursor::ByteCursor;
use archive_analyzer::errors::ArchiveReadError;
use archive_analyzer::errors::ReadNumberFromBytesError;
use archive_analyzer::model::CentralDirectory;
use archive_analyzer::model::StoredFile;
use archive_analyzer::reader::ArchiveExtraDataRecordReader;
use archive_analyzer::reader::CentralDirectoryFileHeaderReader;
use archive_analyzer::reader::CentralDirectoryReader;
use archive_analyzer::reader::DataDescriptorReader;
use archive_analyzer::reader::DigitalSignatureReader;
use archive_analyzer::reader::EndOfCentralDirectoryRecordReader;
use archive_analyzer::reader::LocalFileHeaderReader;
use archive_analyzer::reader::StoredFileReader;
use archive_analyzer::util::check_signature;
use archive_analyzer::util::compare_signature;
use archive_analyzer::util::compare_signature_raw;
use archive_analyzer::util::file_has_remaining_space;
use archive_analyzer::util::read_chunk;
use archive_analyzer::util::read_string_bytes;
use archive_analyzer::util::read_u16_le;
use archive_analyzer::util::read_u32_le;
use archive_analyzer::util::rewind_file_cursor;

fn push_u16(bytes: &mut Vec<u8>, value: u16) {
    bytes.extend_from_slice(&value.to_le_bytes());
}

fn push_u32(bytes: &mut Vec<u8>, value: u32) {
    bytes.extend_from_slice(&value.to_le_bytes());
}

#[test]
fn u16_decoding_is_little_endian() {
    assert_eq!(read_u16_le(&[0x34, 0x12]), Ok(0x1234));
    assert_eq!(read_u16_le(&[0xff, 0xff]), Ok(0xffff));
    assert_eq!(read_u16_le(&[0x01]), Err(ReadNumberFromBytesError::NotEnoughBytes));
    assert_eq!(read_u16_le(&[]), Err(ReadNumberFromBytesError::NotEnoughBytes));
    assert_eq!(read_u16_le(&[1, 2, 3]), Err(ReadNumberFromBytesError::TooManyBytes));
}

#[test]
fn u32_decoding_is_little_endian() {
    assert_eq!(read_u32_le(&[0x78, 0x56, 0x34, 0x12]), Ok(0x12345678));
    assert_eq!(read_u32_le(&[0x50, 0x4b, 0x03, 0x04]), Ok(0x04034b50));
    assert_eq!(read_u32_le(&[1, 2, 3]), Err(ReadNumberFromBytesError::NotEnoughBytes));
    assert_eq!(read_u32_le(&[1, 2, 3, 4, 5]), Err(ReadNumberFromBytesError::TooManyBytes));
}

#[test]
fn strings_decode_byte_per_character() {
    assert_eq!(read_string_bytes(b"a.txt"), "a.txt");
    assert_eq!(read_string_bytes(&[]), "");
    // A non-ASCII byte becomes the character with the same code point.
    assert_eq!(read_string_bytes(&[0x41, 0xe9]), "A\u{e9}");
}

#[test]
fn signature_check_names_the_file_kind() {
    assert_eq!(check_signature(vec![0x50, 0x4b, 0x03, 0x04]), "zip");
    assert_eq!(check_signature(vec![0x50, 0x4b, 0x05, 0x06]), "unknown");
    assert_eq!(check_signature(vec![0, 0, 0, 0]), "unknown");
}

#[test]
fn read_chunk_advances_and_caps_at_end() {
    let mut cursor = ByteCursor::new(vec![1, 2, 3, 4, 5]);
    assert_eq!(read_chunk(&mut cursor, 2), vec![1, 2]);
    assert_eq!(cursor.stream_position(), 2);
    assert_eq!(read_chunk(&mut cursor, 10), vec![3, 4, 5]);
    assert_eq!(cursor.stream_position(), 5);
    assert_eq!(read_chunk(&mut cursor, 4), Vec::<u8>::new());
}

#[test]
fn signature_probe_consumes_only_on_match() {
    let mut bytes = vec![0x50, 0x4b, 0x03, 0x04, 0xaa];
    bytes.push(0xbb);
    let mut cursor = ByteCursor::new(bytes);
    assert_eq!(compare_signature(&mut cursor, 0x06054b50), Ok(false));
    assert_eq!(cursor.stream_position(), 0);
    assert_eq!(compare_signature(&mut cursor, 0x04034b50), Ok(true));
    assert_eq!(cursor.stream_position(), 4);
    // Fewer than 4 bytes remain: the probe fails.
    assert_eq!(compare_signature(&mut cursor, 0x04034b50), Err(ArchiveReadError::InputTruncated));
}

#[test]
fn raw_signature_probe_controls_the_rewind() {
    let mut cursor = ByteCursor::new(vec![0, 0, 0, 0, 0, 0, 0, 0]);
    let chunk = read_chunk(&mut cursor, 4);
    assert_eq!(
        compare_signature_raw(&mut cursor, &chunk, 0x04034b50, false),
        Ok(false)
    );
    assert_eq!(cursor.stream_position(), 4);
    assert_eq!(
        compare_signature_raw(&mut cursor, &chunk, 0x04034b50, true),
        Ok(false)
    );
    assert_eq!(cursor.stream_position(), 0);
    assert_eq!(
        compare_signature_raw(&mut cursor, &chunk[0..2], 0x04034b50, false),
        Err(ArchiveReadError::IntegerDecode)
    );
}

#[test]
fn seeking_past_the_end_fails() {
    let mut cursor = ByteCursor::new(vec![1, 2, 3, 4]);
    assert_eq!(cursor.seek(4), Ok(()));
    assert_eq!(cursor.stream_position(), 4);
    assert_eq!(cursor.seek(5), Err(ArchiveReadError::SeekFailure));
    assert_eq!(cursor.stream_position(), 4);
    assert_eq!(cursor.seek(1), Ok(()));
    assert_eq!(read_chunk(&mut cursor, 2), vec![2, 3]);
}

#[test]
fn rewinding_past_the_start_fails() {
    let mut cursor = ByteCursor::new(vec![1, 2, 3]);
    let _ = read_chunk(&mut cursor, 2);
    assert_eq!(rewind_file_cursor(&mut cursor, 1), Ok(()));
    assert_eq!(cursor.stream_position(), 1);
    assert_eq!(rewind_file_cursor(&mut cursor, 2), Err(ArchiveReadError::SeekFailure));
    assert_eq!(cursor.stream_position(), 1);
}

#[test]
fn remaining_space_counts_at_least_n_bytes() {
    let mut cursor = ByteCursor::new(vec![0; 10]);
    assert_eq!(file_has_remaining_space(&mut cursor, 10), Ok(true));
    assert_eq!(file_has_remaining_space(&mut cursor, 11), Ok(false));
    let _ = read_chunk(&mut cursor, 4);
    assert_eq!(file_has_remaining_space(&mut cursor, 6), Ok(true));
    assert_eq!(file_has_remaining_space(&mut cursor, 7), Ok(false));
    let _ = read_chunk(&mut cursor, 6);
    assert_eq!(file_has_remaining_space(&mut cursor, 0), Ok(true));
    assert_eq!(file_has_remaining_space(&mut cursor, 1), Ok(false));
}

#[test]
fn local_file_header_decodes_every_field() {
    let mut bytes = Vec::new();
    push_u16(&mut bytes, 20);
    push_u16(&mut bytes, 0x0808);
    push_u16(&mut bytes, 8);
    push_u16(&mut bytes, 0x7a3c);
    push_u16(&mut bytes, 0x5321);
    push_u32(&mut bytes, 0xdeadbeef);
    push_u32(&mut bytes, 5);
    push_u32(&mut bytes, 7);
    push_u16(&mut bytes, 4);
    push_u16(&mut bytes, 3);
    bytes.extend_from_slice(b"name");
    bytes.extend_from_slice(&[9, 8, 7]);

    let mut cursor = ByteCursor::new(bytes);
    let header = LocalFileHeaderReader::read(&mut cursor).expect("header decodes");
    assert_eq!(header.minimum_version, 20);
    assert_eq!(header.general_purpose_flag, 0x0808);
    assert_eq!(header.compression_method, 8);
    assert_eq!(header.file_last_modification_time, 0x7a3c);
    assert_eq!(header.file_last_modification_date, 0x5321);
    assert_eq!(header.crc32, 0xdeadbeef);
    assert_eq!(header.compressed_size, 5);
    assert_eq!(header.uncompressed_size, 7);
    assert_eq!(header.filename, "name");
    assert_eq!(header.extra_field, vec![9, 8, 7]);
    assert_eq!(cursor.stream_position(), 26 + 4 + 3);
}

#[test]
fn truncated_local_file_header_is_rejected() {
    let mut cursor = ByteCursor::new(vec![0; 25]);
    assert_eq!(
        LocalFileHeaderReader::read(&mut cursor),
        Err(ArchiveReadError::InputTruncated)
    );
    assert_eq!(cursor.stream_position(), 0);
}

#[test]
fn data_descriptor_decodes_three_values() {
    let mut bytes = Vec::new();
    push_u32(&mut bytes, 0x11223344);
    push_u32(&mut bytes, 100);
    push_u32(&mut bytes, 300);
    let mut cursor = ByteCursor::new(bytes);
    let descriptor = DataDescriptorReader::read(&mut cursor).expect("descriptor decodes");
    assert_eq!(descriptor.crc32, 0x11223344);
    assert_eq!(descriptor.compressed_size, 100);
    assert_eq!(descriptor.uncompressed_size, 300);

    let mut short = ByteCursor::new(vec![0; 11]);
    assert_eq!(
        DataDescriptorReader::read(&mut short),
        Err(ArchiveReadError::InputTruncated)
    );
}

#[test]
fn stored_file_records_the_signature_offset() {
    let mut bytes = Vec::new();
    push_u32(&mut bytes, 0x04034b50);
    push_u16(&mut bytes, 20);
    push_u16(&mut bytes, 0);
    push_u16(&mut bytes, 0);
    push_u16(&mut bytes, 0);
    push_u16(&mut bytes, 0);
    push_u32(&mut bytes, 0);
    push_u32(&mut bytes, 2);
    push_u32(&mut bytes, 2);
    push_u16(&mut bytes, 1);
    push_u16(&mut bytes, 0);
    bytes.extend_from_slice(b"f");
    bytes.extend_from_slice(b"ab");

    let mut cursor = ByteCursor::new(bytes);
    let chunk = read_chunk(&mut cursor, 4);
    assert_eq!(chunk.len(), 4);
    let stored = StoredFileReader::read(&mut cursor, 3).expect("entry decodes");
    assert_eq!(stored.position, 3);
    assert_eq!(stored.offset_in_archive, 0);
    assert_eq!(stored.file_data, b"ab".to_vec());
    assert!(!stored.found_in_central_directory);
    assert_eq!(stored.offset_from_central_directory, None);
}

#[test]
fn archive_extra_data_record_reads_its_field() {
    let mut bytes = Vec::new();
    push_u32(&mut bytes, 3);
    bytes.extend_from_slice(b"xyz");
    let mut cursor = ByteCursor::new(bytes);
    let record = ArchiveExtraDataRecordReader::read(&mut cursor).expect("record decodes");
    assert_eq!(record.extra_field, b"xyz".to_vec());

    let mut short = ByteCursor::new(vec![0; 3]);
    assert_eq!(
        ArchiveExtraDataRecordReader::read(&mut short),
        Err(ArchiveReadError::InputTruncated)
    );
}

#[test]
fn central_directory_file_header_decodes_every_field() {
    let mut bytes = Vec::new();
    push_u16(&mut bytes, 0x031e); // version made by
    push_u16(&mut bytes, 20); // minimum version
    push_u16(&mut bytes, 2); // general purpose flag
    push_u16(&mut bytes, 8); // compression method
    push_u16(&mut bytes, 0x7a3c); // time
    push_u16(&mut bytes, 0x5321); // date
    push_u32(&mut bytes, 0xdeadbeef); // crc32
    push_u32(&mut bytes, 11); // compressed size
    push_u32(&mut bytes, 22); // uncompressed size
    push_u16(&mut bytes, 4); // filename length
    push_u16(&mut bytes, 2); // extra field length
    push_u16(&mut bytes, 5); // file comment length
    push_u16(&mut bytes, 1); // disk start
    push_u16(&mut bytes, 6); // internal attributes
    push_u32(&mut bytes, 0x81a40000); // external attributes
    push_u32(&mut bytes, 77); // local header offset
    bytes.extend_from_slice(b"name");
    bytes.extend_from_slice(&[1, 2]);
    bytes.extend_from_slice(b"notes");

    let mut cursor = ByteCursor::new(bytes);
    let header = CentralDirectoryFileHeaderReader::read(&mut cursor).expect("header decodes");
    assert_eq!(header.version_made_by, 0x031e);
    assert_eq!(header.minimum_version, 20);
    assert_eq!(header.general_purpose_flag, 2);
    assert_eq!(header.compression_method, 8);
    assert_eq!(header.file_last_modification_time, 0x7a3c);
    assert_eq!(header.file_last_modification_date, 0x5321);
    assert_eq!(header.crc32, 0xdeadbeef);
    assert_eq!(header.compressed_size, 11);
    assert_eq!(header.uncompressed_size, 22);
    assert_eq!(header.disk_start, 1);
    assert_eq!(header.internal_file_attributes, 6);
    assert_eq!(header.external_file_attributes, 0x81a40000);
    assert_eq!(header.local_file_header_offset, 77);
    assert_eq!(header.filename, "name");
    assert_eq!(header.extra_field, vec![1, 2]);
    assert_eq!(header.file_comment, "notes");
    assert_eq!(header.position, None);
    assert_eq!(cursor.stream_position(), 42 + 4 + 2 + 5);
}

#[test]
fn digital_signature_reads_its_data() {
    let mut bytes = Vec::new();
    push_u16(&mut bytes, 4);
    bytes.extend_from_slice(b"sign");
    let mut cursor = ByteCursor::new(bytes);
    let signature = DigitalSignatureReader::read(&mut cursor).expect("signature decodes");
    assert_eq!(signature.signature_data, b"sign".to_vec());

    let mut short = ByteCursor::new(vec![9]);
    assert_eq!(
        DigitalSignatureReader::read(&mut short),
        Err(ArchiveReadError::InputTruncated)
    );
}

#[test]
fn end_of_central_directory_decodes_every_field() {
    let mut bytes = Vec::new();
    push_u16(&mut bytes, 0); // disk number
    push_u16(&mut bytes, 0); // disk where the central directory starts
    push_u16(&mut bytes, 2); // records on this disk
    push_u16(&mut bytes, 2); // records in total
    push_u32(&mut bytes, 92); // central directory size
    push_u32(&mut bytes, 130); // central directory offset
    push_u16(&mut bytes, 2); // comment length
    bytes.extend_from_slice(b"ok");

    let mut cursor = ByteCursor::new(bytes);
    let record = EndOfCentralDirectoryRecordReader::read(&mut cursor).expect("record decodes");
    assert_eq!(record.disk_number, 0);
    assert_eq!(record.disk_start_central_directory, 0);
    assert_eq!(record.central_directory_records_number_on_disk, 2);
    assert_eq!(record.central_directory_records_total_number, 2);
    assert_eq!(record.central_directory_size, 92);
    assert_eq!(record.offset_start_central_directory, 130);
    assert_eq!(record.comment, "ok");

    let mut short = ByteCursor::new(vec![0; 17]);
    assert_eq!(
        EndOfCentralDirectoryRecordReader::read(&mut short),
        Err(ArchiveReadError::InputTruncated)
    );
}

fn push_cd_header_bytes(bytes: &mut Vec<u8>, filename: &[u8]) {
    push_u32(bytes, 0x02014b50);
    push_u16(bytes, 20);
    push_u16(bytes, 20);
    push_u16(bytes, 0);
    push_u16(bytes, 8);
    push_u16(bytes, 0);
    push_u16(bytes, 0);
    push_u32(bytes, 0);
    push_u32(bytes, 5);
    push_u32(bytes, 5);
    push_u16(bytes, filename.len() as u16);
    push_u16(bytes, 0);
    push_u16(bytes, 0);
    push_u16(bytes, 0);
    push_u16(bytes, 0);
    push_u32(bytes, 0);
    push_u32(bytes, 0);
    bytes.extend_from_slice(filename);
}

#[test]
fn central_directory_without_trailer_reports_missing_section() {
    let mut bytes = Vec::new();
    push_cd_header_bytes(&mut bytes, b"file");
    // Four unrelated bytes instead of the trailer signature.
    bytes.extend_from_slice(&[1, 2, 3, 4]);
    let mut cursor = ByteCursor::new(bytes);
    assert_eq!(
        CentralDirectoryReader::read(&mut cursor),
        Err(ArchiveReadError::SectionMissing)
    );
}

#[test]
fn central_directory_assigns_header_positions() {
    let mut bytes = Vec::new();
    push_cd_header_bytes(&mut bytes, b"one");
    push_cd_header_bytes(&mut bytes, b"two");
    push_u32(&mut bytes, 0x06054b50);
    push_u16(&mut bytes, 0);
    push_u16(&mut bytes, 0);
    push_u16(&mut bytes, 2);
    push_u16(&mut bytes, 2);
    push_u32(&mut bytes, 0);
    push_u32(&mut bytes, 0);
    push_u16(&mut bytes, 0);

    let mut cursor = ByteCursor::new(bytes);
    let cd = CentralDirectoryReader::read(&mut cursor).expect("section decodes");
    assert_eq!(cd.offset_from_start_of_archive, 0);
    assert_eq!(cd.file_headers.len(), 2);
    assert_eq!(cd.file_headers[0].position, Some(0));
    assert_eq!(cd.file_headers[1].position, Some(1));
    assert_eq!(cd.file_headers[0].filename, "one");
    assert_eq!(cd.file_headers[1].filename, "two");
    assert!(cd.digital_signature.is_none());
}

#[test]
fn reconciliation_sets_the_cross_reference_attributes() {
    let mut bytes = Vec::new();
    push_cd_header_bytes(&mut bytes, b"match");
    push_u32(&mut bytes, 0x06054b50);
    push_u16(&mut bytes, 0);
    push_u16(&mut bytes, 0);
    push_u16(&mut bytes, 1);
    push_u16(&mut bytes, 1);
    push_u32(&mut bytes, 0);
    push_u32(&mut bytes, 0);
    push_u16(&mut bytes, 0);
    let mut cursor = ByteCursor::new(bytes);
    let mut cd: CentralDirectory =
        CentralDirectoryReader::read(&mut cursor).expect("section decodes");
    cd.offset_from_start_of_archive = 64;

    let mut entry_bytes = Vec::new();
    push_u32(&mut entry_bytes, 0x04034b50);
    push_u16(&mut entry_bytes, 20);
    push_u16(&mut entry_bytes, 0);
    push_u16(&mut entry_bytes, 0);
    push_u16(&mut entry_bytes, 0);
    push_u16(&mut entry_bytes, 0);
    push_u32(&mut entry_bytes, 0);
    push_u32(&mut entry_bytes, 0);
    push_u32(&mut entry_bytes, 0);
    push_u16(&mut entry_bytes, 5);
    push_u16(&mut entry_bytes, 0);
    entry_bytes.extend_from_slice(b"match");
    let mut entry_cursor = ByteCursor::new(entry_bytes);
    let chunk = read_chunk(&mut entry_cursor, 4);
    assert_eq!(chunk.len(), 4);
    let mut stored: StoredFile =
        StoredFileReader::read(&mut entry_cursor, 0).expect("entry decodes");
    assert_eq!(stored.offset_in_archive, 0);

    stored.update_from_central_directory(&cd);
    assert!(stored.found_in_central_directory);
    assert_eq!(stored.offset_from_central_directory, Some(64));

    let mut unmatched = stored.clone();
    unmatched.local_file_header.filename = "elsewhere".to_string();
    unmatched.found_in_central_directory = false;
    unmatched.offset_from_central_directory = None;
    unmatched.update_from_central_directory(&cd);
    assert!(!unmatched.found_in_central_directory);
    assert_eq!(unmatched.offset_from_central_directory, None);

    // A directory start recorded before the entry gives a negative delta.
    let mut behind = stored.clone();
    behind.offset_in_archive = 70;
    behind.found_in_central_directory = false;
    behind.offset_from_central_directory = None;
    behind.update_from_central_directory(&cd);
    assert!(behind.found_in_central_directory);
    assert_eq!(behind.offset_from_central_directory, Some(-6));
}
