//! The structured model of a parsed ZIP archive.
//!
//! Each executable type carries a ghost view (`…View`) holding the same
//! information over mathematical types; the wire-format specification in
//! `format` and all reader contracts speak about those views.

use vstd::prelude::*;

use crate::format::cd_lists_filename;
use crate::format::reconcile_file;

verus! {

/// The per-entry record that precedes an entry's payload bytes in the
/// archive body: a fixed 26-byte payload after the 4-byte signature,
/// followed by the filename and the raw extra field.
#[derive(Clone, Debug, PartialEq, Eq)]
pub struct LocalFileHeader {
    /// The minimum version needed to extract.
    pub minimum_version: u16,
    /// The general purpose bit flag. Bit 3 announces a data descriptor
    /// after the payload; bit 11 announces a UTF-8 filename (not honored
    /// here: filenames are decoded byte-per-character).
    pub general_purpose_flag: u16,
    /// The compression method (0 = stored, 8 = deflated, ...).
    pub compression_method: u16,
    /// Last modification time of the file, MS-DOS packed.
    pub file_last_modification_time: u16,
    /// Last modification date of the file, MS-DOS packed.
    pub file_last_modification_date: u16,
    /// CRC-32 of the file data (not verified by this analyzer).
    pub crc32: u32,
    /// Compressed size of the file; `0xffffffff` is kept literally, the
    /// ZIP64 extra field is not decoded.
    pub compressed_size: u32,
    /// Uncompressed size of the file; `0xffffffff` is kept literally.
    pub uncompressed_size: u32,
    /// The filename, decoded byte-per-character.
    pub filename: String,
    /// The raw extra field; its internal tag/length/value structure is
    /// not interpreted.
    pub extra_field: Vec<u8>,
}

/// The ghost mirror of a `LocalFileHeader`.
pub ghost struct LocalFileHeaderView {
    pub minimum_version: u16,
    pub general_purpose_flag: u16,
    pub compression_method: u16,
    pub file_last_modification_time: u16,
    pub file_last_modification_date: u16,
    pub crc32: u32,
    pub compressed_size: u32,
    pub uncompressed_size: u32,
    pub filename: Seq<char>,
    pub extra_field: Seq<u8>,
}

impl View for LocalFileHeader {
    type V = LocalFileHeaderView;

    open spec fn view(&self) -> LocalFileHeaderView {
        LocalFileHeaderView {
            minimum_version: self.minimum_version,
            general_purpose_flag: self.general_purpose_flag,
            compression_method: self.compression_method,
            file_last_modification_time: self.file_last_modification_time,
            file_last_modification_date: self.file_last_modification_date,
            crc32: self.crc32,
            compressed_size: self.compressed_size,
            uncompressed_size: self.uncompressed_size,
            filename: self.filename@,
            extra_field: self.extra_field@,
        }
    }
}

/// The optional trailer after an entry's payload, written when bit 3 of
/// the general-purpose flag is set: three consecutive 32-bit values.
#[derive(Clone, Debug, PartialEq, Eq)]
pub struct DataDescriptor {
    /// CRC-32 of the file data.
    pub crc32: u32,
    /// The compressed size.
    pub compressed_size: u32,
    /// The uncompressed size.
    pub uncompressed_size: u32,
}

/// The ghost mirror of a `DataDescriptor`.
pub ghost struct DataDescriptorView {
    pub crc32: u32,
    pub compressed_size: u32,
    pub uncompressed_size: u32,
}

impl View for DataDescriptor {
    type V = DataDescriptorView;

    open spec fn view(&self) -> DataDescriptorView {
        DataDescriptorView {
            crc32: self.crc32,
            compressed_size: self.compressed_size,
            uncompressed_size: self.uncompressed_size,
        }
    }
}

/// One parsed entry of the archive body: its local file header, the raw
/// payload bytes that follow it, an optional data descriptor, and the
/// cross-reference attributes filled in by the reconciler.
#[derive(Clone, Debug, PartialEq, Eq)]
pub struct StoredFile {
    /// The local file header.
    pub local_file_header: LocalFileHeader,
    /// The raw (still compressed) payload bytes; short when the input
    /// ended before `compressed_size` bytes were available.
    pub file_data: Vec<u8>,
    /// The data descriptor, present when bit 3 of the general-purpose
    /// flag is set.
    pub data_descriptor: Option<DataDescriptor>,
    /// The 0-based index of this entry in body order (not central
    /// directory order).
    pub position: usize,
    /// Whether a central-directory file header with a byte-identical
    /// filename exists. False also means the entry may have been hidden
    /// from the index.
    pub found_in_central_directory: bool,
    /// The byte offset of this entry's local-file-header signature from
    /// the start of the input.
    pub offset_in_archive: usize,
    /// The signed byte delta exposed by the reconciler — the start of the
    /// central directory minus this entry's `offset_in_archive`, negative
    /// when the recorded directory start lies before the entry; `None`
    /// when the entry is not listed in the central directory.
    pub offset_from_central_directory: Option<isize>,
}

/// The ghost mirror of a `StoredFile`.
pub ghost struct StoredFileView {
    pub local_file_header: LocalFileHeaderView,
    pub file_data: Seq<u8>,
    pub data_descriptor: Option<DataDescriptorView>,
    pub position: int,
    pub found_in_central_directory: bool,
    pub offset_in_archive: int,
    pub offset_from_central_directory: Option<int>,
}

impl View for StoredFile {
    type V = StoredFileView;

    open spec fn view(&self) -> StoredFileView {
        StoredFileView {
            local_file_header: self.local_file_header@,
            file_data: self.file_data@,
            data_descriptor: match self.data_descriptor {
                Some(d) => Some(d@),
                None => None,
            },
            position: self.position as int,
            found_in_central_directory: self.found_in_central_directory,
            offset_in_archive: self.offset_in_archive as int,
            offset_from_central_directory: match self.offset_from_central_directory {
                Some(o) => Some(o as int),
                None => None,
            },
        }
    }
}

/// An archive extra data record: a 32-bit length followed by that many
/// raw bytes.
#[derive(Clone, Debug, PartialEq, Eq)]
pub struct ArchiveExtraDataRecord {
    /// The raw extra field bytes.
    pub extra_field: Vec<u8>,
}

/// The ghost mirror of an `ArchiveExtraDataRecord`.
pub ghost struct ArchiveExtraDataRecordView {
    pub extra_field: Seq<u8>,
}

impl View for ArchiveExtraDataRecord {
    type V = ArchiveExtraDataRecordView;

    open spec fn view(&self) -> ArchiveExtraDataRecordView {
        ArchiveExtraDataRecordView { extra_field: self.extra_field@ }
    }
}

/// A file header of the central directory: a fixed 42-byte payload after
/// the 4-byte signature, followed by the filename, the raw extra field
/// and the file comment.
#[derive(Clone, Debug, PartialEq, Eq)]
pub struct CentralDirectoryFileHeader {
    /// The version of the ZIP specification used to make the file.
    pub version_made_by: u16,
    /// The minimum version needed to extract.
    pub minimum_version: u16,
    /// The general purpose bit flag.
    pub general_purpose_flag: u16,
    /// The compression method.
    pub compression_method: u16,
    /// Last modification time of the file, MS-DOS packed.
    pub file_last_modification_time: u16,
    /// Last modification date of the file, MS-DOS packed.
    pub file_last_modification_date: u16,
    /// CRC-32 of the file data.
    pub crc32: u32,
    /// The file's compressed size.
    pub compressed_size: u32,
    /// The file's uncompressed size.
    pub uncompressed_size: u32,
    /// The disk number where the file starts.
    pub disk_start: u16,
    /// Internal file attributes.
    pub internal_file_attributes: u16,
    /// External file attributes.
    pub external_file_attributes: u32,
    /// The offset of the entry's local file header from the start of the
    /// first disk on which the file occurs.
    pub local_file_header_offset: u32,
    /// The filename, decoded byte-per-character.
    pub filename: String,
    /// The raw extra field.
    pub extra_field: Vec<u8>,
    /// The file comment, decoded byte-per-character.
    pub file_comment: String,
    /// The 0-based index of this header within the central directory,
    /// assigned by the central-directory reader.
    pub position: Option<usize>,
}

/// The ghost mirror of a `CentralDirectoryFileHeader`.
pub ghost struct CentralDirectoryFileHeaderView {
    pub version_made_by: u16,
    pub minimum_version: u16,
    pub general_purpose_flag: u16,
    pub compression_method: u16,
    pub file_last_modification_time: u16,
    pub file_last_modification_date: u16,
    pub crc32: u32,
    pub compressed_size: u32,
    pub uncompressed_size: u32,
    pub disk_start: u16,
    pub internal_file_attributes: u16,
    pub external_file_attributes: u32,
    pub local_file_header_offset: u32,
    pub filename: Seq<char>,
    pub extra_field: Seq<u8>,
    pub file_comment: Seq<char>,
    pub position: Option<int>,
}

impl View for CentralDirectoryFileHeader {
    type V = CentralDirectoryFileHeaderView;

    open spec fn view(&self) -> CentralDirectoryFileHeaderView {
        CentralDirectoryFileHeaderView {
            version_made_by: self.version_made_by,
            minimum_version: self.minimum_version,
            general_purpose_flag: self.general_purpose_flag,
            compression_method: self.compression_method,
            file_last_modification_time: self.file_last_modification_time,
            file_last_modification_date: self.file_last_modification_date,
            crc32: self.crc32,
            compressed_size: self.compressed_size,
            uncompressed_size: self.uncompressed_size,
            disk_start: self.disk_start,
            internal_file_attributes: self.internal_file_attributes,
            external_file_attributes: self.external_file_attributes,
            local_file_header_offset: self.local_file_header_offset,
            filename: self.filename@,
            extra_field: self.extra_field@,
            file_comment: self.file_comment@,
            position: match self.position {
                Some(p) => Some(p as int),
                None => None,
            },
        }
    }
}

/// A digital signature stored after the central-directory file headers:
/// a 16-bit length followed by that many raw signature bytes.
#[derive(Clone, Debug, PartialEq, Eq)]
pub struct DigitalSignature {
    /// The raw signature bytes.
    pub signature_data: Vec<u8>,
}

/// The ghost mirror of a `DigitalSignature`.
pub ghost struct DigitalSignatureView {
    pub signature_data: Seq<u8>,
}

impl View for DigitalSignature {
    type V = DigitalSignatureView;

    open spec fn view(&self) -> DigitalSignatureView {
        DigitalSignatureView { signature_data: self.signature_data@ }
    }
}

/// The end-of-central-directory trailer: a fixed 18-byte payload after
/// the 4-byte signature, followed by the archive comment.
#[derive(Clone, Debug, PartialEq, Eq)]
pub struct EndOfCentralDirectoryRecord {
    /// The current disk number.
    pub disk_number: u16,
    /// The disk where the central directory starts.
    pub disk_start_central_directory: u16,
    /// The number of central-directory records on this disk.
    pub central_directory_records_number_on_disk: u16,
    /// The total number of central-directory records.
    pub central_directory_records_total_number: u16,
    /// The size of the central directory in bytes.
    pub central_directory_size: u32,
    /// The offset of the start of the central directory, relative to the
    /// start of the archive, as recorded on the wire.
    pub offset_start_central_directory: u32,
    /// The archive comment, decoded byte-per-character.
    pub comment: String,
}

/// The ghost mirror of an `EndOfCentralDirectoryRecord`.
pub ghost struct EndOfCentralDirectoryRecordView {
    pub disk_number: u16,
    pub disk_start_central_directory: u16,
    pub central_directory_records_number_on_disk: u16,
    pub central_directory_records_total_number: u16,
    pub central_directory_size: u32,
    pub offset_start_central_directory: u32,
    pub comment: Seq<char>,
}

impl View for EndOfCentralDirectoryRecord {
    type V = EndOfCentralDirectoryRecordView;

    open spec fn view(&self) -> EndOfCentralDirectoryRecordView {
        EndOfCentralDirectoryRecordView {
            disk_number: self.disk_number,
            disk_start_central_directory: self.disk_start_central_directory,
            central_directory_records_number_on_disk: self.central_directory_records_number_on_disk,
            central_directory_records_total_number: self.central_directory_records_total_number,
            central_directory_size: self.central_directory_size,
            offset_start_central_directory: self.offset_start_central_directory,
            comment: self.comment@,
        }
    }
}

/// The archive's authoritative index: an ordered sequence of file
/// headers, an optional digital signature, exactly one
/// end-of-central-directory record, and the byte offset at which the
/// first central-directory signature was found (derived, not on the
/// wire).
#[derive(Clone, Debug, PartialEq, Eq)]
pub struct CentralDirectory {
    /// The file headers, in the order they appear on the wire.
    pub file_headers: Vec<CentralDirectoryFileHeader>,
    /// The optional digital signature.
    pub digital_signature: Option<DigitalSignature>,
    /// The end-of-central-directory record.
    pub end_of_central_directory_record: EndOfCentralDirectoryRecord,
    /// The offset of the central directory from the start of the archive.
    pub offset_from_start_of_archive: usize,
}

/// The ghost mirror of a `CentralDirectory`.
pub ghost struct CentralDirectoryView {
    pub file_headers: Seq<CentralDirectoryFileHeaderView>,
    pub digital_signature: Option<DigitalSignatureView>,
    pub end_of_central_directory_record: EndOfCentralDirectoryRecordView,
    pub offset_from_start_of_archive: int,
}

impl View for CentralDirectory {
    type V = CentralDirectoryView;

    open spec fn view(&self) -> CentralDirectoryView {
        CentralDirectoryView {
            file_headers: self.file_headers@.map_values(
                |h: CentralDirectoryFileHeader| h@,
            ),
            digital_signature: match self.digital_signature {
                Some(d) => Some(d@),
                None => None,
            },
            end_of_central_directory_record: self.end_of_central_directory_record@,
            offset_from_start_of_archive: self.offset_from_start_of_archive as int,
        }
    }
}

/// An archive decryption header: an optional archive extra data record
/// and a central directory that has to be decrypted when read from a
/// file. Recognized in the data model but never produced by this
/// analyzer, which does not decrypt.
#[derive(Clone, Debug, PartialEq, Eq)]
pub struct ArchiveDecryptionHeader {
    /// The optional archive extra data record.
    pub archive_extra_data_record: Option<ArchiveExtraDataRecord>,
    /// The central directory carried by the decryption header.
    pub central_directory: CentralDirectory,
}

/// The assembled model of a whole ZIP file.
#[derive(Clone, Debug, PartialEq, Eq)]
pub struct ZipFile {
    /// The stored files, in body order.
    pub stored_files: Vec<StoredFile>,
    /// The archive extra data record, when one was found.
    pub archive_extra_data_record: Option<ArchiveExtraDataRecord>,
    /// The central directory. The format requires one, but a damaged or
    /// truncated archive can still be read without it; it is then absent
    /// from the model.
    pub central_directory: Option<CentralDirectory>,
}

/// The ghost mirror of a `ZipFile`.
pub ghost struct ZipFileView {
    pub stored_files: Seq<StoredFileView>,
    pub archive_extra_data_record: Option<ArchiveExtraDataRecordView>,
    pub central_directory: Option<CentralDirectoryView>,
}

impl View for ZipFile {
    type V = ZipFileView;

    open spec fn view(&self) -> ZipFileView {
        ZipFileView {
            stored_files: self.stored_files@.map_values(|s: StoredFile| s@),
            archive_extra_data_record: match self.archive_extra_data_record {
                Some(r) => Some(r@),
                None => None,
            },
            central_directory: match self.central_directory {
                Some(c) => Some(c@),
                None => None,
            },
        }
    }
}

impl StoredFile {
    /// Sets the cross-reference attributes of this entry from the central
    /// directory: when some central-directory file header carries a
    /// byte-identical filename, the entry is marked as found and the
    /// signed byte delta from its local header up to the start of the
    /// central directory is recorded. The delta must fit the signed
    /// field, which every offset within one in-memory input satisfies.
    pub fn update_from_central_directory(&mut self, central_directory: &CentralDirectory)
        requires
            cd_lists_filename(central_directory@, old(self)@.local_file_header.filename) ==> -(
            isize::MAX as int) <= central_directory.offset_from_start_of_archive - old(
                self,
            ).offset_in_archive <= isize::MAX as int,
        ensures
            final(self)@ == reconcile_file(old(self)@, central_directory@),
    {
        let mut i: usize = 0;
        let mut found: bool = false;
        while i < central_directory.file_headers.len()
            invariant
                *self == *old(self),
                i <= central_directory.file_headers@.len(),
                found == exists|j: int|
                    0 <= j < i && central_directory@.file_headers[j].filename
                        == self@.local_file_header.filename,
            decreases central_directory.file_headers@.len() - i,
        {
            proof {
                assert(central_directory@.file_headers[i as int]
                    == central_directory.file_headers@[i as int]@);
            }
            if central_directory.file_headers[i].filename == self.local_file_header.filename {
                found = true;
                proof {
                    assert(central_directory@.file_headers[i as int].filename
                        == self@.local_file_header.filename);
                }
            }
            i = i + 1;
        }
        if found {
            self.found_in_central_directory = true;
            let delta: isize = if central_directory.offset_from_start_of_archive
                >= self.offset_in_archive {
                (central_directory.offset_from_start_of_archive - self.offset_in_archive) as isize
            } else {
                -((self.offset_in_archive - central_directory.offset_from_start_of_archive)
                    as isize)
            };
            self.offset_from_central_directory = Some(delta);
        }
    }
}

} // verus!
