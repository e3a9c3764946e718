//! The record readers and the archive walker.
//!
//! Each reader assumes its record's 4-byte signature has already been
//! matched and consumed (except the central-directory and whole-archive
//! readers, which probe for signatures themselves), reads the record's
//! fixed payload, then its variable-length tails. On success the cursor
//! is positioned just after the last byte of the record; on failure the
//! reader reports where the cursor was left. Every reader is proved
//! equal to the wire-format model in `format`.

use vstd::prelude::*;

use crate::constants::SIGNATURE_ARCHIVE_EXTRA_DATA_RECORD;
use crate::constants::SIGNATURE_CENTRAL_DIRECTORY_DIGITAL_SIGNATURE;
use crate::constants::SIGNATURE_END_OF_CENTRAL_DIRECTORY_RECORD;
use crate::constants::SIGNATURE_HEADER_CENTRAL_DIRECTORY;
use crate::constants::SIGNATURE_HEADER_LOCAL_FILE;
use crate::cursor::ByteCursor;
use crate::errors::ArchiveReadError;
use crate::format::archive_extra_data_at;
use crate::format::archive_extra_data_end;
use crate::format::archive_extra_data_ok;
use crate::format::cd_file_header_at;
use crate::format::cd_file_header_end;
use crate::format::cd_file_header_ok;
use crate::format::cd_file_header_positioned;
use crate::format::cd_headers;
use crate::format::cd_parse;
use crate::format::data_descriptor_at;
use crate::format::data_descriptor_ok;
use crate::format::digital_signature_at;
use crate::format::digital_signature_end;
use crate::format::digital_signature_ok;
use crate::format::eocd_at;
use crate::format::eocd_end;
use crate::format::eocd_ok;
use crate::format::local_file_header_at;
use crate::format::local_file_header_end;
use crate::format::local_file_header_ok;
use crate::format::prefix_entries;
use crate::format::reconcile_all;
use crate::format::reconcile_file;
use crate::format::resync;
use crate::format::stored_file_at;
use crate::format::stored_file_end;
use crate::format::stored_file_fail_pos;
use crate::format::stored_file_ok;
use crate::format::zip_parse;
use crate::model::ArchiveExtraDataRecord;
use crate::model::CentralDirectory;
use crate::model::CentralDirectoryFileHeader;
use crate::model::CentralDirectoryFileHeaderView;
use crate::model::CentralDirectoryView;
use crate::model::DataDescriptor;
use crate::model::DigitalSignature;
use crate::model::EndOfCentralDirectoryRecord;
use crate::model::LocalFileHeader;
use crate::model::StoredFile;
use crate::model::StoredFileView;
use crate::model::ZipFile;
use crate::util::compare_signature;
use crate::util::compare_signature_raw;
use crate::util::read_chunk;
use crate::util::read_string_bytes;
use crate::util::read_u16_le;
use crate::util::read_u32_le;
use crate::util::rewind_file_cursor;

verus! {

/// A reader for `LocalFileHeader`.
pub struct LocalFileHeaderReader {}

impl LocalFileHeaderReader {
    /// Decodes a local file header at the cursor (just after its
    /// signature). Fails, without consuming anything, when the fixed
    /// 26-byte payload is truncated; the filename and extra-field tails
    /// may come back short.
    pub fn read(cursor: &mut ByteCursor) -> (r: Result<LocalFileHeader, ArchiveReadError>)
        requires
            old(cursor).wf(),
        ensures
            final(cursor).wf(),
            final(cursor).data@ == old(cursor).data@,
            local_file_header_ok(old(cursor).data@, old(cursor).pos as int) ==> (r matches Ok(h)
                && h@ == local_file_header_at(old(cursor).data@, old(cursor).pos as int) && final(cursor).pos == local_file_header_end(old(cursor).data@, old(cursor).pos as int)),
            !local_file_header_ok(old(cursor).data@, old(cursor).pos as int) ==> (r matches Err(e)
                && e == ArchiveReadError::InputTruncated && final(cursor).pos == old(cursor).pos),
    {
        if cursor.remaining() < 26 {
            return Err(ArchiveReadError::InputTruncated);
        }
        let minimum_version_chunk = read_chunk(cursor, 2);
        let general_purpose_flag_chunk = read_chunk(cursor, 2);
        let compression_method_chunk = read_chunk(cursor, 2);
        let file_last_modification_time_chunk = read_chunk(cursor, 2);
        let file_last_modification_date_chunk = read_chunk(cursor, 2);
        let crc32_chunk = read_chunk(cursor, 4);
        let compressed_size_chunk = read_chunk(cursor, 4);
        let uncompressed_size_chunk = read_chunk(cursor, 4);
        let filename_length_chunk = read_chunk(cursor, 2);
        let extra_fields_length_chunk = read_chunk(cursor, 2);

        let minimum_version = match read_u16_le(minimum_version_chunk.as_slice()) {
            Ok(v) => v,
            Err(_) => {
                return Err(ArchiveReadError::IntegerDecode);
            },
        };
        let general_purpose_flag = match read_u16_le(general_purpose_flag_chunk.as_slice()) {
            Ok(v) => v,
            Err(_) => {
                return Err(ArchiveReadError::IntegerDecode);
            },
        };
        let compression_method = match read_u16_le(compression_method_chunk.as_slice()) {
            Ok(v) => v,
            Err(_) => {
                return Err(ArchiveReadError::IntegerDecode);
            },
        };
        let file_last_modification_time = match read_u16_le(
            file_last_modification_time_chunk.as_slice(),
        ) {
            Ok(v) => v,
            Err(_) => {
                return Err(ArchiveReadError::IntegerDecode);
            },
        };
        let file_last_modification_date = match read_u16_le(
            file_last_modification_date_chunk.as_slice(),
        ) {
            Ok(v) => v,
            Err(_) => {
                return Err(ArchiveReadError::IntegerDecode);
            },
        };
        let crc32 = match read_u32_le(crc32_chunk.as_slice()) {
            Ok(v) => v,
            Err(_) => {
                return Err(ArchiveReadError::IntegerDecode);
            },
        };
        let compressed_size = match read_u32_le(compressed_size_chunk.as_slice()) {
            Ok(v) => v,
            Err(_) => {
                return Err(ArchiveReadError::IntegerDecode);
            },
        };
        let uncompressed_size = match read_u32_le(uncompressed_size_chunk.as_slice()) {
            Ok(v) => v,
            Err(_) => {
                return Err(ArchiveReadError::IntegerDecode);
            },
        };
        let filename_length = match read_u16_le(filename_length_chunk.as_slice()) {
            Ok(v) => v,
            Err(_) => {
                return Err(ArchiveReadError::IntegerDecode);
            },
        };
        let extra_fields_length = match read_u16_le(extra_fields_length_chunk.as_slice()) {
            Ok(v) => v,
            Err(_) => {
                return Err(ArchiveReadError::IntegerDecode);
            },
        };

        let filename_chunk = read_chunk(cursor, filename_length as usize);
        let extra_field_chunk = read_chunk(cursor, extra_fields_length as usize);

        Ok(
            LocalFileHeader {
                minimum_version,
                general_purpose_flag,
                compression_method,
                file_last_modification_time,
                file_last_modification_date,
                crc32,
                compressed_size,
                uncompressed_size,
                filename: read_string_bytes(filename_chunk.as_slice()),
                extra_field: extra_field_chunk,
            },
        )
    }
}

/// A reader for `DataDescriptor`.
pub struct DataDescriptorReader {}

impl DataDescriptorReader {
    /// Decodes a data descriptor at the cursor. Fails, without consuming
    /// anything, when fewer than its 12 bytes remain.
    pub fn read(cursor: &mut ByteCursor) -> (r: Result<DataDescriptor, ArchiveReadError>)
        requires
            old(cursor).wf(),
        ensures
            final(cursor).wf(),
            final(cursor).data@ == old(cursor).data@,
            data_descriptor_ok(old(cursor).data@, old(cursor).pos as int) ==> (r matches Ok(d)
                && d@ == data_descriptor_at(old(cursor).data@, old(cursor).pos as int) && final(cursor).pos == old(cursor).pos + 12),
            !data_descriptor_ok(old(cursor).data@, old(cursor).pos as int) ==> (r matches Err(e)
                && e == ArchiveReadError::InputTruncated && final(cursor).pos == old(cursor).pos),
    {
        if cursor.remaining() < 12 {
            return Err(ArchiveReadError::InputTruncated);
        }
        let crc32_chunk = read_chunk(cursor, 4);
        let compressed_size_chunk = read_chunk(cursor, 4);
        let uncompressed_size_chunk = read_chunk(cursor, 4);

        let crc32 = match read_u32_le(crc32_chunk.as_slice()) {
            Ok(v) => v,
            Err(_) => {
                return Err(ArchiveReadError::IntegerDecode);
            },
        };
        let compressed_size = match read_u32_le(compressed_size_chunk.as_slice()) {
            Ok(v) => v,
            Err(_) => {
                return Err(ArchiveReadError::IntegerDecode);
            },
        };
        let uncompressed_size = match read_u32_le(uncompressed_size_chunk.as_slice()) {
            Ok(v) => v,
            Err(_) => {
                return Err(ArchiveReadError::IntegerDecode);
            },
        };

        Ok(DataDescriptor { crc32, compressed_size, uncompressed_size })
    }
}

/// A reader for `StoredFile`.
pub struct StoredFileReader {}

impl StoredFileReader {
    /// Decodes one whole entry: the local file header at the cursor,
    /// then `compressed_size` raw payload bytes (short when the input
    /// ends first), then — when bit 3 of the general-purpose flag is set
    /// — the data descriptor. The entry's local-header signature sits 4
    /// bytes before the cursor and its offset is recorded from there.
    pub fn read(cursor: &mut ByteCursor, position: usize) -> (r: Result<
        StoredFile,
        ArchiveReadError,
    >)
        requires
            old(cursor).wf(),
            old(cursor).pos >= 4,
        ensures
            final(cursor).wf(),
            final(cursor).data@ == old(cursor).data@,
            stored_file_ok(old(cursor).data@, old(cursor).pos - 4) ==> (r matches Ok(sf) && sf@
                == stored_file_at(old(cursor).data@, old(cursor).pos - 4, position as int)
                && final(cursor).pos == stored_file_end(old(cursor).data@, old(cursor).pos - 4)),
            !stored_file_ok(old(cursor).data@, old(cursor).pos - 4) ==> (r matches Err(e) && e
                == ArchiveReadError::InputTruncated && final(cursor).pos == stored_file_fail_pos(
                old(cursor).data@,
                old(cursor).pos - 4,
            )),
    {
        let offset_in_archive = cursor.stream_position() - 4;
        let local_file_header = match LocalFileHeaderReader::read(cursor) {
            Ok(h) => h,
            Err(e) => {
                return Err(e);
            },
        };
        let file_data = read_chunk(cursor, local_file_header.compressed_size as usize);
        let mut data_descriptor: Option<DataDescriptor> = None;
        if local_file_header.general_purpose_flag & 8 == 8 {
            data_descriptor = match DataDescriptorReader::read(cursor) {
                Ok(d) => Some(d),
                Err(e) => {
                    return Err(e);
                },
            };
        }
        Ok(
            StoredFile {
                local_file_header,
                file_data,
                data_descriptor,
                position,
                found_in_central_directory: false,
                offset_in_archive,
                offset_from_central_directory: None,
            },
        )
    }
}

/// A reader for `ArchiveExtraDataRecord`.
pub struct ArchiveExtraDataRecordReader {}

impl ArchiveExtraDataRecordReader {
    /// Decodes an archive extra data record at the cursor (just after
    /// its signature): a 32-bit length and that many raw bytes, short
    /// when the input ends first.
    pub fn read(cursor: &mut ByteCursor) -> (r: Result<ArchiveExtraDataRecord, ArchiveReadError>)
        requires
            old(cursor).wf(),
        ensures
            final(cursor).wf(),
            final(cursor).data@ == old(cursor).data@,
            archive_extra_data_ok(old(cursor).data@, old(cursor).pos as int) ==> (r matches Ok(rec)
                && rec@ == archive_extra_data_at(old(cursor).data@, old(cursor).pos as int)
                && final(cursor).pos == archive_extra_data_end(
                old(cursor).data@,
                old(cursor).pos as int,
            )),
            !archive_extra_data_ok(old(cursor).data@, old(cursor).pos as int) ==> (r matches Err(e)
                && e == ArchiveReadError::InputTruncated && final(cursor).pos == old(cursor).pos),
    {
        if cursor.remaining() < 4 {
            return Err(ArchiveReadError::InputTruncated);
        }
        let extra_field_length_chunk = read_chunk(cursor, 4);
        let extra_field_length = match read_u32_le(extra_field_length_chunk.as_slice()) {
            Ok(v) => v,
            Err(_) => {
                return Err(ArchiveReadError::IntegerDecode);
            },
        };
        let extra_field = read_chunk(cursor, extra_field_length as usize);
        Ok(ArchiveExtraDataRecord { extra_field })
    }
}

/// A reader for `CentralDirectoryFileHeader`.
pub struct CentralDirectoryFileHeaderReader {}

impl CentralDirectoryFileHeaderReader {
    /// Decodes a central-directory file header at the cursor (just after
    /// its signature). Fails, without consuming anything, when the fixed
    /// 42-byte payload is truncated; the filename, extra-field and
    /// comment tails may come back short. No position is assigned yet.
    pub fn read(cursor: &mut ByteCursor) -> (r: Result<
        CentralDirectoryFileHeader,
        ArchiveReadError,
    >)
        requires
            old(cursor).wf(),
        ensures
            final(cursor).wf(),
            final(cursor).data@ == old(cursor).data@,
            cd_file_header_ok(old(cursor).data@, old(cursor).pos as int) ==> (r matches Ok(h) && h@
                == cd_file_header_at(old(cursor).data@, old(cursor).pos as int) && final(cursor).pos == cd_file_header_end(old(cursor).data@, old(cursor).pos as int)),
            !cd_file_header_ok(old(cursor).data@, old(cursor).pos as int) ==> (r matches Err(e)
                && e == ArchiveReadError::InputTruncated && final(cursor).pos == old(cursor).pos),
    {
        if cursor.remaining() < 42 {
            return Err(ArchiveReadError::InputTruncated);
        }
        let version_made_by_chunk = read_chunk(cursor, 2);
        let minimum_version_chunk = read_chunk(cursor, 2);
        let general_purpose_flag_chunk = read_chunk(cursor, 2);
        let compression_method_chunk = read_chunk(cursor, 2);
        let file_last_modification_time_chunk = read_chunk(cursor, 2);
        let file_last_modification_date_chunk = read_chunk(cursor, 2);
        let crc32_chunk = read_chunk(cursor, 4);
        let compressed_size_chunk = read_chunk(cursor, 4);
        let uncompressed_size_chunk = read_chunk(cursor, 4);
        let filename_length_chunk = read_chunk(cursor, 2);
        let extra_field_length_chunk = read_chunk(cursor, 2);
        let file_comment_length_chunk = read_chunk(cursor, 2);
        let disk_number_where_file_starts_chunk = read_chunk(cursor, 2);
        let internal_file_attributes_chunk = read_chunk(cursor, 2);
        let external_file_attributes_chunk = read_chunk(cursor, 4);
        let relative_offset_of_local_header_chunk = read_chunk(cursor, 4);

        let version_made_by = match read_u16_le(version_made_by_chunk.as_slice()) {
            Ok(v) => v,
            Err(_) => {
                return Err(ArchiveReadError::IntegerDecode);
            },
        };
        let minimum_version = match read_u16_le(minimum_version_chunk.as_slice()) {
            Ok(v) => v,
            Err(_) => {
                return Err(ArchiveReadError::IntegerDecode);
            },
        };
        let general_purpose_flag = match read_u16_le(general_purpose_flag_chunk.as_slice()) {
            Ok(v) => v,
            Err(_) => {
                return Err(ArchiveReadError::IntegerDecode);
            },
        };
        let compression_method = match read_u16_le(compression_method_chunk.as_slice()) {
            Ok(v) => v,
            Err(_) => {
                return Err(ArchiveReadError::IntegerDecode);
            },
        };
        let file_last_modification_time = match read_u16_le(
            file_last_modification_time_chunk.as_slice(),
        ) {
            Ok(v) => v,
            Err(_) => {
                return Err(ArchiveReadError::IntegerDecode);
            },
        };
        let file_last_modification_date = match read_u16_le(
            file_last_modification_date_chunk.as_slice(),
        ) {
            Ok(v) => v,
            Err(_) => {
                return Err(ArchiveReadError::IntegerDecode);
            },
        };
        let crc32 = match read_u32_le(crc32_chunk.as_slice()) {
            Ok(v) => v,
            Err(_) => {
                return Err(ArchiveReadError::IntegerDecode);
            },
        };
        let compressed_size = match read_u32_le(compressed_size_chunk.as_slice()) {
            Ok(v) => v,
            Err(_) => {
                return Err(ArchiveReadError::IntegerDecode);
            },
        };
        let uncompressed_size = match read_u32_le(uncompressed_size_chunk.as_slice()) {
            Ok(v) => v,
            Err(_) => {
                return Err(ArchiveReadError::IntegerDecode);
            },
        };
        let filename_length = match read_u16_le(filename_length_chunk.as_slice()) {
            Ok(v) => v,
            Err(_) => {
                return Err(ArchiveReadError::IntegerDecode);
            },
        };
        let extra_field_length = match read_u16_le(extra_field_length_chunk.as_slice()) {
            Ok(v) => v,
            Err(_) => {
                return Err(ArchiveReadError::IntegerDecode);
            },
        };
        let file_comment_length = match read_u16_le(file_comment_length_chunk.as_slice()) {
            Ok(v) => v,
            Err(_) => {
                return Err(ArchiveReadError::IntegerDecode);
            },
        };
        let disk_number_where_file_starts = match read_u16_le(
            disk_number_where_file_starts_chunk.as_slice(),
        ) {
            Ok(v) => v,
            Err(_) => {
                return Err(ArchiveReadError::IntegerDecode);
            },
        };
        let internal_file_attributes = match read_u16_le(internal_file_attributes_chunk.as_slice())
        {
            Ok(v) => v,
            Err(_) => {
                return Err(ArchiveReadError::IntegerDecode);
            },
        };
        let external_file_attributes = match read_u32_le(external_file_attributes_chunk.as_slice())
        {
            Ok(v) => v,
            Err(_) => {
                return Err(ArchiveReadError::IntegerDecode);
            },
        };
        let relative_offset_of_local_header = match read_u32_le(
            relative_offset_of_local_header_chunk.as_slice(),
        ) {
            Ok(v) => v,
            Err(_) => {
                return Err(ArchiveReadError::IntegerDecode);
            },
        };

        let filename_chunk = read_chunk(cursor, filename_length as usize);
        let extra_field_chunk = read_chunk(cursor, extra_field_length as usize);
        let file_comment_chunk = read_chunk(cursor, file_comment_length as usize);

        Ok(
            CentralDirectoryFileHeader {
                version_made_by,
                minimum_version,
                general_purpose_flag,
                compression_method,
                file_last_modification_time,
                file_last_modification_date,
                crc32,
                compressed_size,
                uncompressed_size,
                disk_start: disk_number_where_file_starts,
                internal_file_attributes,
                external_file_attributes,
                local_file_header_offset: relative_offset_of_local_header,
                filename: read_string_bytes(filename_chunk.as_slice()),
                extra_field: extra_field_chunk,
                file_comment: read_string_bytes(file_comment_chunk.as_slice()),
                position: None,
            },
        )
    }
}

/// A reader for `DigitalSignature`.
pub struct DigitalSignatureReader {}

impl DigitalSignatureReader {
    /// Decodes a digital signature at the cursor (just after its
    /// signature): a 16-bit length and that many raw bytes, short when
    /// the input ends first.
    pub fn read(cursor: &mut ByteCursor) -> (r: Result<DigitalSignature, ArchiveReadError>)
        requires
            old(cursor).wf(),
        ensures
            final(cursor).wf(),
            final(cursor).data@ == old(cursor).data@,
            digital_signature_ok(old(cursor).data@, old(cursor).pos as int) ==> (r matches Ok(d)
                && d@ == digital_signature_at(old(cursor).data@, old(cursor).pos as int) && final(cursor).pos == digital_signature_end(old(cursor).data@, old(cursor).pos as int)),
            !digital_signature_ok(old(cursor).data@, old(cursor).pos as int) ==> (r matches Err(e)
                && e == ArchiveReadError::InputTruncated && final(cursor).pos == old(cursor).pos),
    {
        if cursor.remaining() < 2 {
            return Err(ArchiveReadError::InputTruncated);
        }
        let size_of_data_chunk = read_chunk(cursor, 2);
        let size_of_data = match read_u16_le(size_of_data_chunk.as_slice()) {
            Ok(v) => v,
            Err(_) => {
                return Err(ArchiveReadError::IntegerDecode);
            },
        };
        let signature_data_chunk = read_chunk(cursor, size_of_data as usize);
        Ok(DigitalSignature { signature_data: signature_data_chunk })
    }
}

/// A reader for `EndOfCentralDirectoryRecord`.
pub struct EndOfCentralDirectoryRecordReader {}

impl EndOfCentralDirectoryRecordReader {
    /// Decodes an end-of-central-directory record at the cursor (just
    /// after its signature). Fails, without consuming anything, when the
    /// fixed 18-byte payload is truncated; the comment tail may come
    /// back short.
    pub fn read(cursor: &mut ByteCursor) -> (r: Result<
        EndOfCentralDirectoryRecord,
        ArchiveReadError,
    >)
        requires
            old(cursor).wf(),
        ensures
            final(cursor).wf(),
            final(cursor).data@ == old(cursor).data@,
            eocd_ok(old(cursor).data@, old(cursor).pos as int) ==> (r matches Ok(rec) && rec@
                == eocd_at(old(cursor).data@, old(cursor).pos as int) && final(cursor).pos
                == eocd_end(old(cursor).data@, old(cursor).pos as int)),
            !eocd_ok(old(cursor).data@, old(cursor).pos as int) ==> (r matches Err(e) && e
                == ArchiveReadError::InputTruncated && final(cursor).pos == old(cursor).pos),
    {
        if cursor.remaining() < 18 {
            return Err(ArchiveReadError::InputTruncated);
        }
        let number_of_this_disk_chunk = read_chunk(cursor, 2);
        let disk_where_central_directory_starts_chunk = read_chunk(cursor, 2);
        let number_of_central_directory_records_on_this_disk_chunk = read_chunk(cursor, 2);
        let total_number_of_central_directory_records_chunk = read_chunk(cursor, 2);
        let size_of_central_directory_chunk = read_chunk(cursor, 4);
        let offset_start_of_central_directory_chunk = read_chunk(cursor, 4);
        let comment_length_chunk = read_chunk(cursor, 2);

        let number_of_this_disk = match read_u16_le(number_of_this_disk_chunk.as_slice()) {
            Ok(v) => v,
            Err(_) => {
                return Err(ArchiveReadError::IntegerDecode);
            },
        };
        let disk_where_central_directory_starts = match read_u16_le(
            disk_where_central_directory_starts_chunk.as_slice(),
        ) {
            Ok(v) => v,
            Err(_) => {
                return Err(ArchiveReadError::IntegerDecode);
            },
        };
        let number_of_central_directory_records_on_this_disk = match read_u16_le(
            number_of_central_directory_records_on_this_disk_chunk.as_slice(),
        ) {
            Ok(v) => v,
            Err(_) => {
                return Err(ArchiveReadError::IntegerDecode);
            },
        };
        let total_number_of_central_directory_records = match read_u16_le(
            total_number_of_central_directory_records_chunk.as_slice(),
        ) {
            Ok(v) => v,
            Err(_) => {
                return Err(ArchiveReadError::IntegerDecode);
            },
        };
        let size_of_central_directory = match read_u32_le(
            size_of_central_directory_chunk.as_slice(),
        ) {
            Ok(v) => v,
            Err(_) => {
                return Err(ArchiveReadError::IntegerDecode);
            },
        };
        let offset_start_of_central_directory = match read_u32_le(
            offset_start_of_central_directory_chunk.as_slice(),
        ) {
            Ok(v) => v,
            Err(_) => {
                return Err(ArchiveReadError::IntegerDecode);
            },
        };
        let comment_length = match read_u16_le(comment_length_chunk.as_slice()) {
            Ok(v) => v,
            Err(_) => {
                return Err(ArchiveReadError::IntegerDecode);
            },
        };
        let comment_chunk = read_chunk(cursor, comment_length as usize);

        Ok(
            EndOfCentralDirectoryRecord {
                disk_number: number_of_this_disk,
                disk_start_central_directory: disk_where_central_directory_starts,
                central_directory_records_number_on_disk:
                    number_of_central_directory_records_on_this_disk,
                central_directory_records_total_number:
                    total_number_of_central_directory_records,
                central_directory_size: size_of_central_directory,
                offset_start_central_directory: offset_start_of_central_directory,
                comment: read_string_bytes(comment_chunk.as_slice()),
            },
        )
    }
}

/// A reader for `CentralDirectory`.
pub struct CentralDirectoryReader {}

impl CentralDirectoryReader {
    /// Decodes a whole central-directory section at the cursor (the
    /// position of the first central-directory signature): the run of
    /// file headers, each assigned its index, an optional digital
    /// signature, and the mandatory end-of-central-directory record.
    /// When the trailer is missing the whole section is rejected.
    pub fn read(cursor: &mut ByteCursor) -> (r: Result<CentralDirectory, ArchiveReadError>)
        requires
            old(cursor).wf(),
        ensures
            final(cursor).wf(),
            final(cursor).data@ == old(cursor).data@,
            cd_parse(old(cursor).data@, old(cursor).pos as int) matches Ok(pair) ==> (r matches Ok(
                cd,
            ) && cd@ == pair.0 && final(cursor).pos == pair.1),
            cd_parse(old(cursor).data@, old(cursor).pos as int) matches Err(kind) ==> (r matches
                Err(e) && e == kind),
    {
        let ghost data = old(cursor).data@;
        let ghost start = old(cursor).pos as int;
        let offset_from_start_of_archive = cursor.stream_position();
        let mut central_directory_file_headers: Vec<CentralDirectoryFileHeader> = Vec::new();
        proof {
            assert(central_directory_file_headers@.map_values(
                |h: CentralDirectoryFileHeader| h@,
            ) =~= Seq::<CentralDirectoryFileHeaderView>::empty());
        }

        loop
            invariant_except_break
                data == old(cursor).data@,
                start == old(cursor).pos as int,
                cursor.wf(),
                cursor.data@ == data,
                cd_headers(data, start, Seq::empty()) == cd_headers(
                    data,
                    cursor.pos as int,
                    central_directory_file_headers@.map_values(
                        |h: CentralDirectoryFileHeader| h@,
                    ),
                ),
            ensures
                cursor.wf(),
                cursor.data@ == data,
                cursor.pos + 4 <= data.len(),
                cd_headers(data, start, Seq::empty()) matches Ok(pair) && pair
                    == (
                    central_directory_file_headers@.map_values(
                        |h: CentralDirectoryFileHeader| h@,
                    ),
                    cursor.pos as int,
                ),
            decreases data.len() - cursor.pos,
        {
            let ghost probe_pos = cursor.pos as int;
            let ghost acc_views = central_directory_file_headers@.map_values(
                |h: CentralDirectoryFileHeader| h@,
            );
            let matched = match compare_signature(cursor, SIGNATURE_HEADER_CENTRAL_DIRECTORY) {
                Ok(b) => b,
                Err(_) => {
                    return Err(ArchiveReadError::InputTruncated);
                },
            };
            if !matched {
                break;
            }
            let mut header = match CentralDirectoryFileHeaderReader::read(cursor) {
                Ok(h) => h,
                Err(e) => {
                    return Err(e);
                },
            };
            header.position = Some(central_directory_file_headers.len());
            let ghost header_view = header@;
            central_directory_file_headers.push(header);
            proof {
                assert(central_directory_file_headers@.map_values(
                    |h: CentralDirectoryFileHeader| h@,
                ) =~= acc_views.push(header_view));
                assert(header_view == cd_file_header_positioned(
                    cd_file_header_at(data, probe_pos + 4),
                    acc_views.len() as int,
                ));
            }
        }

        let digital_signature_matched = match compare_signature(
            cursor,
            SIGNATURE_CENTRAL_DIRECTORY_DIGITAL_SIGNATURE,
        ) {
            Ok(b) => b,
            Err(_) => false,
        };
        let mut digital_signature: Option<DigitalSignature> = None;
        if digital_signature_matched {
            digital_signature = match DigitalSignatureReader::read(cursor) {
                Ok(d) => Some(d),
                Err(e) => {
                    return Err(e);
                },
            };
        }

        let end_matched = match compare_signature(
            cursor,
            SIGNATURE_END_OF_CENTRAL_DIRECTORY_RECORD,
        ) {
            Ok(b) => b,
            Err(_) => false,
        };
        if !end_matched {
            return Err(ArchiveReadError::SectionMissing);
        }
        let end_of_central_directory_record = match EndOfCentralDirectoryRecordReader::read(
            cursor,
        ) {
            Ok(rec) => rec,
            Err(e) => {
                return Err(e);
            },
        };

        Ok(
            CentralDirectory {
                file_headers: central_directory_file_headers,
                digital_signature,
                end_of_central_directory_record,
                offset_from_start_of_archive,
            },
        )
    }
}

/// A reader for `ZipFile`.
pub struct ZipFileReader {}

impl ZipFileReader {
    /// Walks the whole archive from the cursor: the prefix run of
    /// entries, then the resync scan over the tail (which recovers from
    /// damaged regions byte by byte), then — when a central directory
    /// was captured — the reconciliation of every stored file against
    /// it. A model is always returned: a damaged, truncated or missing
    /// central directory only leaves `central_directory` unset. The input
    /// must fit a signed size — as every in-memory buffer does — so that
    /// the reconciler's signed deltas are representable.
    pub fn read(cursor: &mut ByteCursor) -> (r: Result<ZipFile, ArchiveReadError>)
        requires
            old(cursor).wf(),
            old(cursor).data@.len() <= isize::MAX,
        ensures
            final(cursor).wf(),
            final(cursor).data@ == old(cursor).data@,
            r matches Ok(zip_file) && zip_file@ == zip_parse(
                old(cursor).data@,
                old(cursor).pos as int,
            ),
    {
        let ghost data = old(cursor).data@;
        let ghost start = old(cursor).pos as int;
        let mut stored_files: Vec<StoredFile> = Vec::new();
        proof {
            assert(stored_files@.map_values(|s: StoredFile| s@) =~= Seq::<
                StoredFileView,
            >::empty());
        }

        loop
            invariant_except_break
                data == old(cursor).data@,
                start == old(cursor).pos as int,
                cursor.wf(),
                cursor.data@ == data,
                prefix_entries(data, start, Seq::empty()) == prefix_entries(
                    data,
                    cursor.pos as int,
                    stored_files@.map_values(|s: StoredFile| s@),
                ),
                forall|i: int|
                    0 <= i < stored_files@.len() ==> #[trigger] stored_files@[i].offset_in_archive
                        < cursor.pos,
            ensures
                data == old(cursor).data@,
                start == old(cursor).pos as int,
                cursor.wf(),
                cursor.data@ == data,
                prefix_entries(data, start, Seq::empty()) == (
                    stored_files@.map_values(|s: StoredFile| s@),
                    cursor.pos as int,
                ),
                forall|i: int|
                    0 <= i < stored_files@.len() ==> #[trigger] stored_files@[i].offset_in_archive
                        < cursor.pos,
            decreases data.len() - cursor.pos,
        {
            if cursor.remaining() < 4 {
                break;
            }
            let ghost probe_pos = cursor.pos as int;
            let ghost acc_views = stored_files@.map_values(|s: StoredFile| s@);
            let matched = match compare_signature(cursor, SIGNATURE_HEADER_LOCAL_FILE) {
                Ok(b) => b,
                Err(_) => false,
            };
            if !matched {
                break;
            }
            let current_offset = cursor.stream_position();
            let position = stored_files.len();
            match StoredFileReader::read(cursor, position) {
                Ok(stored_file) => {
                    let ghost stored_file_view = stored_file@;
                    stored_files.push(stored_file);
                    proof {
                        assert(stored_files@.map_values(|s: StoredFile| s@) =~= acc_views.push(
                            stored_file_view,
                        ));
                    }
                },
                Err(_) => {
                    // The cursor may have advanced into the partial
                    // entry: put it back just after the failed
                    // signature match, where the probe resumes.
                    let new_offset = cursor.stream_position();
                    match rewind_file_cursor(cursor, new_offset - current_offset) {
                        Ok(_) => {},
                        Err(_) => {},
                    }
                },
            }
        }

        let mut archive_extra_data_record: Option<ArchiveExtraDataRecord> = None;
        let mut central_directory: Option<CentralDirectory> = None;
        let ghost entry_files = stored_files@.map_values(|s: StoredFile| s@);
        let ghost resync_start = cursor.pos as int;

        loop
            invariant_except_break
                data == old(cursor).data@,
                cursor.wf(),
                cursor.data@ == data,
                central_directory is None,
                resync(data, resync_start, entry_files, None) == resync(
                    data,
                    cursor.pos as int,
                    stored_files@.map_values(|s: StoredFile| s@),
                    match archive_extra_data_record {
                        Some(rec) => Some(rec@),
                        None => None,
                    },
                ),
                forall|i: int|
                    0 <= i < stored_files@.len() ==> #[trigger] stored_files@[i].offset_in_archive
                        < cursor.pos,
            ensures
                cursor.wf(),
                cursor.data@ == data,
                resync(data, resync_start, entry_files, None) == (
                    stored_files@.map_values(|s: StoredFile| s@),
                    match archive_extra_data_record {
                        Some(rec) => Some(rec@),
                        None => None,
                    },
                    match central_directory {
                        Some(cd) => Some(cd@),
                        None => None,
                    },
                ),
                central_directory matches Some(cd) ==> cd.offset_from_start_of_archive
                    <= data.len() && forall|i: int|
                    0 <= i < stored_files@.len() ==> #[trigger] stored_files@[i].offset_in_archive
                        <= cd.offset_from_start_of_archive,
            decreases data.len() - cursor.pos,
        {
            if cursor.remaining() < 4 {
                break;
            }
            let ghost scan_pos = cursor.pos as int;
            let ghost files_views = stored_files@.map_values(|s: StoredFile| s@);
            let chunk = read_chunk(cursor, 4);
            let is_local_file = match compare_signature_raw(
                cursor,
                chunk.as_slice(),
                SIGNATURE_HEADER_LOCAL_FILE,
                false,
            ) {
                Ok(b) => b,
                Err(_) => false,
            };
            if is_local_file {
                let position = stored_files.len();
                match StoredFileReader::read(cursor, position) {
                    Ok(stored_file) => {
                        let ghost stored_file_view = stored_file@;
                        stored_files.push(stored_file);
                        proof {
                            assert(stored_files@.map_values(|s: StoredFile| s@)
                                =~= files_views.push(stored_file_view));
                        }
                    },
                    Err(_) => {},
                }
            } else {
                let is_extra_data = match compare_signature_raw(
                    cursor,
                    chunk.as_slice(),
                    SIGNATURE_ARCHIVE_EXTRA_DATA_RECORD,
                    false,
                ) {
                    Ok(b) => b,
                    Err(_) => false,
                };
                if is_extra_data {
                    match ArchiveExtraDataRecordReader::read(cursor) {
                        Ok(rec) => {
                            archive_extra_data_record = Some(rec);
                        },
                        Err(_) => {},
                    }
                } else {
                    let is_central_directory = match compare_signature_raw(
                        cursor,
                        chunk.as_slice(),
                        SIGNATURE_HEADER_CENTRAL_DIRECTORY,
                        false,
                    ) {
                        Ok(b) => b,
                        Err(_) => false,
                    };
                    if is_central_directory {
                        // The central-directory reader probes the
                        // signature itself: hand it back the 4 bytes.
                        match rewind_file_cursor(cursor, 4) {
                            Ok(_) => {},
                            Err(_) => {},
                        }
                        match CentralDirectoryReader::read(cursor) {
                            Ok(cd) => {
                                central_directory = Some(cd);
                            },
                            Err(_) => {},
                        }
                        break;
                    } else {
                        // Nothing known here: shift one byte forward
                        // and try again.
                        match rewind_file_cursor(cursor, 3) {
                            Ok(_) => {},
                            Err(_) => {},
                        }
                    }
                }
            }
        }

        if central_directory.is_some() {
            let cd_ref = central_directory.as_ref().unwrap();
            let ghost cd_view = cd_ref@;
            let ghost pre_files = stored_files@;
            let mut i: usize = 0;
            while i < stored_files.len()
                invariant
                    i <= stored_files@.len(),
                    stored_files@.len() == pre_files.len(),
                    cd_view == cd_ref@,
                    data.len() <= isize::MAX,
                    data == old(cursor).data@,
                    cd_ref.offset_from_start_of_archive <= data.len(),
                    forall|j: int|
                        i <= j < pre_files.len() ==> stored_files@[j] == #[trigger] pre_files[j],
                    forall|j: int|
                        0 <= j < i ==> #[trigger] stored_files@[j]@ == reconcile_file(
                            pre_files[j]@,
                            cd_view,
                        ),
                    forall|j: int|
                        0 <= j < pre_files.len() ==> #[trigger] pre_files[j].offset_in_archive
                            <= cd_ref.offset_from_start_of_archive,
                decreases stored_files@.len() - i,
            {
                let stored_file = vstd::std_specs::vec::vec_index_mut(&mut stored_files, i);
                stored_file.update_from_central_directory(cd_ref);
                i = i + 1;
            }
            proof {
                assert(stored_files@.map_values(|s: StoredFile| s@) =~= reconcile_all(
                    pre_files.map_values(|s: StoredFile| s@),
                    cd_view,
                ));
            }
        }

        Ok(ZipFile { stored_files, archive_extra_data_record, central_directory })
    }
}

} // verus!

