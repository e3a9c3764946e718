//! The mathematical model of the ZIP wire format.
//!
//! Everything here is specification-only: spec functions over the byte
//! sequence of the input that say what each record decodes to, where it
//! ends, and what the whole archive walk produces. The executable readers
//! in `reader` are proved equal to this model.

use vstd::prelude::*;

use crate::constants::SIGNATURE_ARCHIVE_EXTRA_DATA_RECORD;
use crate::constants::SIGNATURE_CENTRAL_DIRECTORY_DIGITAL_SIGNATURE;
use crate::constants::SIGNATURE_END_OF_CENTRAL_DIRECTORY_RECORD;
use crate::constants::SIGNATURE_HEADER_CENTRAL_DIRECTORY;
use crate::constants::SIGNATURE_HEADER_LOCAL_FILE;
use crate::errors::ArchiveReadError;
use crate::model::ArchiveExtraDataRecordView;
use crate::model::CentralDirectoryFileHeaderView;
use crate::model::CentralDirectoryView;
use crate::model::DataDescriptorView;
use crate::model::DigitalSignatureView;
use crate::model::EndOfCentralDirectoryRecordView;
use crate::model::LocalFileHeaderView;
use crate::model::StoredFileView;
use crate::model::ZipFileView;

verus! {

/// The position just after reading `n` bytes from `start`, capped at the
/// end of the input: reads past the end return a short chunk.
pub open spec fn cap_end(data: Seq<u8>, start: int, n: int) -> int
    recommends
        0 <= start <= data.len(),
        0 <= n,
{
    if start + n <= data.len() {
        start + n
    } else {
        data.len() as int
    }
}

/// The chunk of up to `n` bytes that a read of `n` bytes at `start`
/// yields.
pub open spec fn take_bytes(data: Seq<u8>, start: int, n: int) -> Seq<u8>
    recommends
        0 <= start <= data.len(),
        0 <= n,
{
    data.subrange(start, cap_end(data, start, n))
}

/// The value of a 16-bit little-endian unsigned integer held in an exact
/// 2-byte chunk.
pub open spec fn le16_value(bytes: Seq<u8>) -> u16
    recommends
        bytes.len() == 2,
{
    (bytes[0] + bytes[1] * 0x100) as u16
}

/// The value of a 32-bit little-endian unsigned integer held in an exact
/// 4-byte chunk.
pub open spec fn le32_value(bytes: Seq<u8>) -> u32
    recommends
        bytes.len() == 4,
{
    (bytes[0] + bytes[1] * 0x100 + bytes[2] * 0x10000 + bytes[3] * 0x1000000) as u32
}

/// The little-endian encoding of a 16-bit unsigned integer.
pub open spec fn le16_bytes(value: u16) -> Seq<u8> {
    seq![(value % 0x100) as u8, (value / 0x100) as u8]
}

/// The little-endian encoding of a 32-bit unsigned integer.
pub open spec fn le32_bytes(value: u32) -> Seq<u8> {
    seq![
        (value % 0x100) as u8,
        ((value / 0x100) % 0x100) as u8,
        ((value / 0x10000) % 0x100) as u8,
        (value / 0x1000000) as u8,
    ]
}

/// The 16-bit little-endian integer stored at `pos`.
pub open spec fn le16_at(data: Seq<u8>, pos: int) -> u16
    recommends
        0 <= pos,
        pos + 2 <= data.len(),
{
    le16_value(data.subrange(pos, pos + 2))
}

/// The 32-bit little-endian integer stored at `pos`.
pub open spec fn le32_at(data: Seq<u8>, pos: int) -> u32
    recommends
        0 <= pos,
        pos + 4 <= data.len(),
{
    le32_value(data.subrange(pos, pos + 4))
}

/// Whether the four bytes at `pos` decode to the given record signature.
pub open spec fn signature_at(data: Seq<u8>, pos: int, signature: u32) -> bool {
    0 <= pos && pos + 4 <= data.len() && le32_at(data, pos) == signature
}

/// The string decoded from a chunk of raw bytes: each byte becomes the
/// character with the same code point. No UTF-8 decoding is performed.
pub open spec fn chars_of(bytes: Seq<u8>) -> Seq<char> {
    bytes.map_values(|b: u8| b as char)
}

/// Whether a local file header can be decoded at `pos` (the position
/// just after its signature): its fixed 26-byte payload must be present
/// in full. The two variable tails may be short.
pub open spec fn local_file_header_ok(data: Seq<u8>, pos: int) -> bool {
    0 <= pos && pos + 26 <= data.len()
}

/// The position just after the filename tail of the local file header at
/// `pos`.
pub open spec fn local_file_header_filename_end(data: Seq<u8>, pos: int) -> int {
    cap_end(data, pos + 26, le16_at(data, pos + 22) as int)
}

/// The position just after the local file header at `pos`, extra field
/// included.
pub open spec fn local_file_header_end(data: Seq<u8>, pos: int) -> int {
    cap_end(data, local_file_header_filename_end(data, pos), le16_at(data, pos + 24) as int)
}

/// The local file header decoded at `pos` (just after its signature).
pub open spec fn local_file_header_at(data: Seq<u8>, pos: int) -> LocalFileHeaderView
    recommends
        local_file_header_ok(data, pos),
{
    LocalFileHeaderView {
        minimum_version: le16_at(data, pos),
        general_purpose_flag: le16_at(data, pos + 2),
        compression_method: le16_at(data, pos + 4),
        file_last_modification_time: le16_at(data, pos + 6),
        file_last_modification_date: le16_at(data, pos + 8),
        crc32: le32_at(data, pos + 10),
        compressed_size: le32_at(data, pos + 14),
        uncompressed_size: le32_at(data, pos + 18),
        filename: chars_of(take_bytes(data, pos + 26, le16_at(data, pos + 22) as int)),
        extra_field: take_bytes(
            data,
            local_file_header_filename_end(data, pos),
            le16_at(data, pos + 24) as int,
        ),
    }
}

/// Whether a data descriptor can be decoded at `pos`: twelve bytes of
/// fixed-width fields.
pub open spec fn data_descriptor_ok(data: Seq<u8>, pos: int) -> bool {
    0 <= pos && pos + 12 <= data.len()
}

/// The data descriptor decoded at `pos`.
pub open spec fn data_descriptor_at(data: Seq<u8>, pos: int) -> DataDescriptorView
    recommends
        data_descriptor_ok(data, pos),
{
    DataDescriptorView {
        crc32: le32_at(data, pos),
        compressed_size: le32_at(data, pos + 4),
        uncompressed_size: le32_at(data, pos + 8),
    }
}

/// Whether a local file header announces a data descriptor after the
/// entry payload: bit 3 of the general-purpose flag.
pub open spec fn has_data_descriptor(header: LocalFileHeaderView) -> bool {
    header.general_purpose_flag & 8 == 8
}

/// The position just after the payload of the entry whose local-header
/// signature sits at `sig_pos`: `compressed_size` bytes after the local
/// file header, capped at the end of the input.
pub open spec fn stored_file_payload_end(data: Seq<u8>, sig_pos: int) -> int {
    cap_end(
        data,
        local_file_header_end(data, sig_pos + 4),
        local_file_header_at(data, sig_pos + 4).compressed_size as int,
    )
}

/// Whether a whole stored file can be decoded at `sig_pos` (the position
/// of its local-header signature): the local file header must decode,
/// and when the entry announces a data descriptor, the descriptor must
/// be present in full after the payload.
pub open spec fn stored_file_ok(data: Seq<u8>, sig_pos: int) -> bool {
    local_file_header_ok(data, sig_pos + 4) && (has_data_descriptor(
        local_file_header_at(data, sig_pos + 4),
    ) ==> data_descriptor_ok(data, stored_file_payload_end(data, sig_pos)))
}

/// The position just after the stored file at `sig_pos`, data descriptor
/// included when the entry announces one.
pub open spec fn stored_file_end(data: Seq<u8>, sig_pos: int) -> int {
    if has_data_descriptor(local_file_header_at(data, sig_pos + 4)) {
        stored_file_payload_end(data, sig_pos) + 12
    } else {
        stored_file_payload_end(data, sig_pos)
    }
}

/// Where a failed stored-file read leaves the cursor: a truncated local
/// file header fails before anything is consumed beyond the signature; a
/// missing data descriptor fails just after the payload.
pub open spec fn stored_file_fail_pos(data: Seq<u8>, sig_pos: int) -> int {
    if local_file_header_ok(data, sig_pos + 4) {
        stored_file_payload_end(data, sig_pos)
    } else {
        sig_pos + 4
    }
}

/// The stored file decoded at `sig_pos`, assigned the given body-order
/// position. The cross-reference attributes start out unset; the
/// reconciler fills them in later.
pub open spec fn stored_file_at(data: Seq<u8>, sig_pos: int, position: int) -> StoredFileView
    recommends
        stored_file_ok(data, sig_pos),
{
    let header = local_file_header_at(data, sig_pos + 4);
    StoredFileView {
        local_file_header: header,
        file_data: take_bytes(
            data,
            local_file_header_end(data, sig_pos + 4),
            header.compressed_size as int,
        ),
        data_descriptor: if has_data_descriptor(header) {
            Some(data_descriptor_at(data, stored_file_payload_end(data, sig_pos)))
        } else {
            None
        },
        position: position,
        found_in_central_directory: false,
        offset_in_archive: sig_pos,
        offset_from_central_directory: None,
    }
}

/// Whether an archive extra data record can be decoded at `pos` (just
/// after its signature): its 32-bit length field must be present.
pub open spec fn archive_extra_data_ok(data: Seq<u8>, pos: int) -> bool {
    0 <= pos && pos + 4 <= data.len()
}

/// The position just after the archive extra data record at `pos`.
pub open spec fn archive_extra_data_end(data: Seq<u8>, pos: int) -> int {
    cap_end(data, pos + 4, le32_at(data, pos) as int)
}

/// The archive extra data record decoded at `pos`.
pub open spec fn archive_extra_data_at(data: Seq<u8>, pos: int) -> ArchiveExtraDataRecordView
    recommends
        archive_extra_data_ok(data, pos),
{
    ArchiveExtraDataRecordView { extra_field: take_bytes(data, pos + 4, le32_at(data, pos) as int) }
}

/// Whether a central-directory file header can be decoded at `pos` (just
/// after its signature): its fixed 42-byte payload must be present in
/// full. The three variable tails may be short.
pub open spec fn cd_file_header_ok(data: Seq<u8>, pos: int) -> bool {
    0 <= pos && pos + 42 <= data.len()
}

/// The position just after the filename tail of the central-directory
/// file header at `pos`.
pub open spec fn cd_file_header_filename_end(data: Seq<u8>, pos: int) -> int {
    cap_end(data, pos + 42, le16_at(data, pos + 24) as int)
}

/// The position just after the extra-field tail of the central-directory
/// file header at `pos`.
pub open spec fn cd_file_header_extra_end(data: Seq<u8>, pos: int) -> int {
    cap_end(data, cd_file_header_filename_end(data, pos), le16_at(data, pos + 26) as int)
}

/// The position just after the central-directory file header at `pos`,
/// file comment included.
pub open spec fn cd_file_header_end(data: Seq<u8>, pos: int) -> int {
    cap_end(data, cd_file_header_extra_end(data, pos), le16_at(data, pos + 28) as int)
}

/// The central-directory file header decoded at `pos` (just after its
/// signature), with no position assigned yet.
pub open spec fn cd_file_header_at(data: Seq<u8>, pos: int) -> CentralDirectoryFileHeaderView
    recommends
        cd_file_header_ok(data, pos),
{
    CentralDirectoryFileHeaderView {
        version_made_by: le16_at(data, pos),
        minimum_version: le16_at(data, pos + 2),
        general_purpose_flag: le16_at(data, pos + 4),
        compression_method: le16_at(data, pos + 6),
        file_last_modification_time: le16_at(data, pos + 8),
        file_last_modification_date: le16_at(data, pos + 10),
        crc32: le32_at(data, pos + 12),
        compressed_size: le32_at(data, pos + 16),
        uncompressed_size: le32_at(data, pos + 20),
        disk_start: le16_at(data, pos + 30),
        internal_file_attributes: le16_at(data, pos + 32),
        external_file_attributes: le32_at(data, pos + 34),
        local_file_header_offset: le32_at(data, pos + 38),
        filename: chars_of(take_bytes(data, pos + 42, le16_at(data, pos + 24) as int)),
        extra_field: take_bytes(
            data,
            cd_file_header_filename_end(data, pos),
            le16_at(data, pos + 26) as int,
        ),
        file_comment: chars_of(
            take_bytes(data, cd_file_header_extra_end(data, pos), le16_at(data, pos + 28) as int),
        ),
        position: None,
    }
}

/// The same central-directory file header with its index within the
/// central directory assigned.
pub open spec fn cd_file_header_positioned(
    header: CentralDirectoryFileHeaderView,
    position: int,
) -> CentralDirectoryFileHeaderView {
    CentralDirectoryFileHeaderView {
        version_made_by: header.version_made_by,
        minimum_version: header.minimum_version,
        general_purpose_flag: header.general_purpose_flag,
        compression_method: header.compression_method,
        file_last_modification_time: header.file_last_modification_time,
        file_last_modification_date: header.file_last_modification_date,
        crc32: header.crc32,
        compressed_size: header.compressed_size,
        uncompressed_size: header.uncompressed_size,
        disk_start: header.disk_start,
        internal_file_attributes: header.internal_file_attributes,
        external_file_attributes: header.external_file_attributes,
        local_file_header_offset: header.local_file_header_offset,
        filename: header.filename,
        extra_field: header.extra_field,
        file_comment: header.file_comment,
        position: Some(position),
    }
}

/// Whether a digital signature can be decoded at `pos` (just after its
/// signature): its 16-bit length field must be present.
pub open spec fn digital_signature_ok(data: Seq<u8>, pos: int) -> bool {
    0 <= pos && pos + 2 <= data.len()
}

/// The position just after the digital signature at `pos`.
pub open spec fn digital_signature_end(data: Seq<u8>, pos: int) -> int {
    cap_end(data, pos + 2, le16_at(data, pos) as int)
}

/// The digital signature decoded at `pos`.
pub open spec fn digital_signature_at(data: Seq<u8>, pos: int) -> DigitalSignatureView
    recommends
        digital_signature_ok(data, pos),
{
    DigitalSignatureView { signature_data: take_bytes(data, pos + 2, le16_at(data, pos) as int) }
}

/// Whether an end-of-central-directory record can be decoded at `pos`
/// (just after its signature): its fixed 18-byte payload must be present
/// in full. The comment tail may be short.
pub open spec fn eocd_ok(data: Seq<u8>, pos: int) -> bool {
    0 <= pos && pos + 18 <= data.len()
}

/// The position just after the end-of-central-directory record at `pos`,
/// comment included.
pub open spec fn eocd_end(data: Seq<u8>, pos: int) -> int {
    cap_end(data, pos + 18, le16_at(data, pos + 16) as int)
}

/// The end-of-central-directory record decoded at `pos`.
pub open spec fn eocd_at(data: Seq<u8>, pos: int) -> EndOfCentralDirectoryRecordView
    recommends
        eocd_ok(data, pos),
{
    EndOfCentralDirectoryRecordView {
        disk_number: le16_at(data, pos),
        disk_start_central_directory: le16_at(data, pos + 2),
        central_directory_records_number_on_disk: le16_at(data, pos + 4),
        central_directory_records_total_number: le16_at(data, pos + 6),
        central_directory_size: le32_at(data, pos + 8),
        offset_start_central_directory: le32_at(data, pos + 12),
        comment: chars_of(take_bytes(data, pos + 18, le16_at(data, pos + 16) as int)),
    }
}

/// The run of central-directory file headers starting at `pos` (the
/// position of the first candidate signature). On success it yields the
/// accumulated headers, each assigned its index, and the position of the
/// first non-matching signature probe, which is guaranteed to have 4
/// readable bytes. A probe with fewer than 4 bytes left, or a header
/// whose fixed payload is truncated, fails the whole run.
pub open spec fn cd_headers(
    data: Seq<u8>,
    pos: int,
    acc: Seq<CentralDirectoryFileHeaderView>,
) -> Result<(Seq<CentralDirectoryFileHeaderView>, int), ArchiveReadError>
    decreases data.len() - pos,
{
    if pos < 0 || pos + 4 > data.len() {
        Err(ArchiveReadError::InputTruncated)
    } else if le32_at(data, pos) == SIGNATURE_HEADER_CENTRAL_DIRECTORY {
        if cd_file_header_ok(data, pos + 4) {
            cd_headers(
                data,
                cd_file_header_end(data, pos + 4),
                acc.push(
                    cd_file_header_positioned(cd_file_header_at(data, pos + 4), acc.len() as int),
                ),
            )
        } else {
            Err(ArchiveReadError::InputTruncated)
        }
    } else {
        Ok((acc, pos))
    }
}

/// The tail of a central-directory section after the file headers and
/// the optional digital signature: the end-of-central-directory record
/// must follow at `pos`, or the whole section is rejected.
pub open spec fn cd_finish(
    data: Seq<u8>,
    start: int,
    headers: Seq<CentralDirectoryFileHeaderView>,
    digital_signature: Option<DigitalSignatureView>,
    pos: int,
) -> Result<(CentralDirectoryView, int), ArchiveReadError> {
    if pos + 4 <= data.len() && le32_at(data, pos) == SIGNATURE_END_OF_CENTRAL_DIRECTORY_RECORD {
        if eocd_ok(data, pos + 4) {
            Ok(
                (
                    CentralDirectoryView {
                        file_headers: headers,
                        digital_signature: digital_signature,
                        end_of_central_directory_record: eocd_at(data, pos + 4),
                        offset_from_start_of_archive: start,
                    },
                    eocd_end(data, pos + 4),
                ),
            )
        } else {
            Err(ArchiveReadError::InputTruncated)
        }
    } else {
        Err(ArchiveReadError::SectionMissing)
    }
}

/// The whole central-directory section starting at `pos` (the position
/// of the first central-directory signature): the run of file headers,
/// an optional digital signature, and the mandatory
/// end-of-central-directory record. On success it yields the decoded
/// section and the position just after it.
pub open spec fn cd_parse(data: Seq<u8>, pos: int) -> Result<
    (CentralDirectoryView, int),
    ArchiveReadError,
> {
    match cd_headers(data, pos, Seq::empty()) {
        Err(e) => Err(e),
        Ok(pair) => {
            if le32_at(data, pair.1) == SIGNATURE_CENTRAL_DIRECTORY_DIGITAL_SIGNATURE {
                if digital_signature_ok(data, pair.1 + 4) {
                    cd_finish(
                        data,
                        pos,
                        pair.0,
                        Some(digital_signature_at(data, pair.1 + 4)),
                        digital_signature_end(data, pair.1 + 4),
                    )
                } else {
                    Err(ArchiveReadError::InputTruncated)
                }
            } else {
                cd_finish(data, pos, pair.0, None, pair.1)
            }
        },
    }
}

/// The prefix phase of the archive walk: as long as a local-file-header
/// signature sits at the cursor, one stored file is decoded and
/// appended; a failed decode skips the signature and probes again just
/// after it. The phase ends at the first position without the signature
/// and yields the entries collected so far together with that position.
pub open spec fn prefix_entries(data: Seq<u8>, pos: int, acc: Seq<StoredFileView>) -> (
    Seq<StoredFileView>,
    int,
)
    decreases data.len() - pos,
{
    if signature_at(data, pos, SIGNATURE_HEADER_LOCAL_FILE) {
        if stored_file_ok(data, pos) {
            prefix_entries(
                data,
                stored_file_end(data, pos),
                acc.push(stored_file_at(data, pos, acc.len() as int)),
            )
        } else {
            prefix_entries(data, pos + 4, acc)
        }
    } else {
        (acc, pos)
    }
}

/// The resync phase of the archive walk: starting at `pos`, the walker
/// reads 4 bytes and dispatches on the signature they form. A stored
/// file or an archive extra data record is decoded and the scan goes on
/// behind it; a central-directory signature hands over to the
/// central-directory section and ends the walk; any other bytes shift
/// the scan forward one byte. The walk also ends when fewer than 4 bytes
/// remain.
pub open spec fn resync(
    data: Seq<u8>,
    pos: int,
    files: Seq<StoredFileView>,
    extra: Option<ArchiveExtraDataRecordView>,
) -> (Seq<StoredFileView>, Option<ArchiveExtraDataRecordView>, Option<CentralDirectoryView>)
    decreases data.len() - pos,
{
    if pos < 0 || pos + 4 > data.len() {
        (files, extra, None)
    } else if le32_at(data, pos) == SIGNATURE_HEADER_LOCAL_FILE {
        if stored_file_ok(data, pos) {
            resync(
                data,
                stored_file_end(data, pos),
                files.push(stored_file_at(data, pos, files.len() as int)),
                extra,
            )
        } else {
            resync(data, stored_file_fail_pos(data, pos), files, extra)
        }
    } else if le32_at(data, pos) == SIGNATURE_ARCHIVE_EXTRA_DATA_RECORD {
        if archive_extra_data_ok(data, pos + 4) {
            resync(
                data,
                archive_extra_data_end(data, pos + 4),
                files,
                Some(archive_extra_data_at(data, pos + 4)),
            )
        } else {
            resync(data, pos + 4, files, extra)
        }
    } else if le32_at(data, pos) == SIGNATURE_HEADER_CENTRAL_DIRECTORY {
        match cd_parse(data, pos) {
            Ok(pair) => (files, extra, Some(pair.0)),
            Err(_) => (files, extra, None),
        }
    } else {
        resync(data, pos + 1, files, extra)
    }
}

/// The whole archive walk over `data` starting at `start`: the prefix
/// phase, then the resync phase, then — when a central directory was
/// captured — the reconciliation of every stored file against it.
pub open spec fn zip_parse(data: Seq<u8>, start: int) -> ZipFileView {
    let after_prefix = prefix_entries(data, start, Seq::empty());
    let walked = resync(data, after_prefix.1, after_prefix.0, None);
    ZipFileView {
        stored_files: match walked.2 {
            Some(cd) => reconcile_all(walked.0, cd),
            None => walked.0,
        },
        archive_extra_data_record: walked.1,
        central_directory: walked.2,
    }
}

/// Whether some file header of the central directory carries a filename
/// byte-identical to the given one.
pub open spec fn cd_lists_filename(cd: CentralDirectoryView, filename: Seq<char>) -> bool {
    exists|j: int| 0 <= j < cd.file_headers.len() && cd.file_headers[j].filename == filename
}

/// What the reconciler does to one stored file: when the central
/// directory lists its filename, the entry is marked as found and the
/// byte delta from its local header up to the start of the central
/// directory is recorded; otherwise the entry is left untouched.
pub open spec fn reconcile_file(sf: StoredFileView, cd: CentralDirectoryView) -> StoredFileView {
    if cd_lists_filename(cd, sf.local_file_header.filename) {
        StoredFileView {
            local_file_header: sf.local_file_header,
            file_data: sf.file_data,
            data_descriptor: sf.data_descriptor,
            position: sf.position,
            found_in_central_directory: true,
            offset_in_archive: sf.offset_in_archive,
            offset_from_central_directory: Some(
                cd.offset_from_start_of_archive - sf.offset_in_archive,
            ),
        }
    } else {
        sf
    }
}

/// What the reconciler does to the whole stored-files sequence.
pub open spec fn reconcile_all(
    files: Seq<StoredFileView>,
    cd: CentralDirectoryView,
) -> Seq<StoredFileView> {
    files.map_values(|sf: StoredFileView| reconcile_file(sf, cd))
}

} // verus!
