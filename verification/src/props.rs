//! Proved properties of the archive walk.
//!
//! These lemmas state, over the wire-format model in `format`, the
//! invariants that hold of every parsed archive: positions index the
//! sequences they live in, recorded offsets really point at signatures,
//! reconciliation is exactly filename matching, numeric decoding
//! round-trips, and parsing is a function of the input bytes.

use vstd::prelude::*;

use crate::constants::SIGNATURE_HEADER_LOCAL_FILE;
use crate::format::cd_headers;
use crate::format::cd_lists_filename;
use crate::format::cd_parse;
use crate::format::chars_of;
use crate::format::le16_bytes;
use crate::format::le16_value;
use crate::format::le32_bytes;
use crate::format::le32_value;
use crate::format::prefix_entries;
use crate::format::reconcile_all;
use crate::format::reconcile_file;
use crate::format::resync;
use crate::format::signature_at;
use crate::format::stored_file_at;
use crate::format::stored_file_ok;
use crate::format::zip_parse;
use crate::model::CentralDirectoryFileHeaderView;
use crate::model::StoredFileView;
use crate::model::ZipFileView;

verus! {

/// What the walk guarantees of every entry it collects, before
/// reconciliation: the entry at index `i` is exactly the stored file
/// decoded at its own recorded offset, with `i` as its position.
proof fn lemma_prefix_entries_props(data: Seq<u8>, pos: int, acc: Seq<StoredFileView>)
    requires
        0 <= pos <= data.len(),
    ensures
        ({
            let walked = prefix_entries(data, pos, acc);
            &&& walked.0.len() >= acc.len()
            &&& forall|i: int| 0 <= i < acc.len() ==> walked.0[i] == #[trigger] acc[i]
            &&& forall|i: int|
                acc.len() <= i < walked.0.len() ==> (#[trigger] walked.0[i]) == stored_file_at(
                    data,
                    walked.0[i].offset_in_archive,
                    i,
                ) && stored_file_ok(data, walked.0[i].offset_in_archive) && signature_at(
                    data,
                    walked.0[i].offset_in_archive,
                    SIGNATURE_HEADER_LOCAL_FILE,
                ) && pos <= walked.0[i].offset_in_archive
            &&& pos <= walked.1 <= data.len()
        }),
    decreases data.len() - pos,
{
    let walked = prefix_entries(data, pos, acc);
    if signature_at(data, pos, SIGNATURE_HEADER_LOCAL_FILE) {
        if stored_file_ok(data, pos) {
            let entry = stored_file_at(data, pos, acc.len() as int);
            let acc2 = acc.push(entry);
            let next = crate::format::stored_file_end(data, pos);
            lemma_prefix_entries_props(data, next, acc2);
            assert(walked == prefix_entries(data, next, acc2));
            assert forall|i: int| 0 <= i < acc.len() implies walked.0[i] == acc[i] by {
                assert(acc2[i] == acc[i]);
                assert(walked.0[i] == acc2[i]);
            }
            assert forall|i: int|
                acc.len() <= i < walked.0.len() implies (#[trigger] walked.0[i])
                == stored_file_at(data, walked.0[i].offset_in_archive, i) && stored_file_ok(
                data,
                walked.0[i].offset_in_archive,
            ) && signature_at(data, walked.0[i].offset_in_archive, SIGNATURE_HEADER_LOCAL_FILE)
                && pos <= walked.0[i].offset_in_archive by {
                if i == acc.len() {
                    assert(walked.0[i] == acc2[i]);
                    assert(acc2[i] == entry);
                    assert(entry.offset_in_archive == pos);
                }
            }
        } else {
            lemma_prefix_entries_props(data, pos + 4, acc);
        }
    }
}

/// What a run of central-directory file headers guarantees: every header
/// appended by the run carries its own index as its position.
proof fn lemma_cd_headers_props(data: Seq<u8>, pos: int, acc: Seq<CentralDirectoryFileHeaderView>)
    ensures
        cd_headers(data, pos, acc) matches Ok(pair) ==> {
            &&& pair.0.len() >= acc.len()
            &&& forall|i: int| 0 <= i < acc.len() ==> pair.0[i] == #[trigger] acc[i]
            &&& forall|i: int|
                acc.len() <= i < pair.0.len() ==> (#[trigger] pair.0[i]).position == Some(i)
        },
    decreases data.len() - pos,
{
    if pos < 0 || pos + 4 > data.len() {
    } else if crate::format::le32_at(data, pos)
        == crate::constants::SIGNATURE_HEADER_CENTRAL_DIRECTORY {
        if crate::format::cd_file_header_ok(data, pos + 4) {
            let entry = crate::format::cd_file_header_positioned(
                crate::format::cd_file_header_at(data, pos + 4),
                acc.len() as int,
            );
            let acc2 = acc.push(entry);
            let next = crate::format::cd_file_header_end(data, pos + 4);
            lemma_cd_headers_props(data, next, acc2);
            assert(cd_headers(data, pos, acc) == cd_headers(data, next, acc2));
            match cd_headers(data, pos, acc) {
                Ok(pair) => {
                    assert forall|i: int| 0 <= i < acc.len() implies pair.0[i] == acc[i] by {
                        assert(acc2[i] == acc[i]);
                        assert(pair.0[i] == acc2[i]);
                    }
                    assert forall|i: int|
                        acc.len() <= i < pair.0.len() implies (#[trigger] pair.0[i]).position
                        == Some(i) by {
                        if i == acc.len() {
                            assert(pair.0[i] == acc2[i]);
                            assert(acc2[i] == entry);
                        }
                    }
                },
                Err(_) => {},
            }
        }
    }
}

/// What a decoded central-directory section guarantees: every file
/// header carries its own index as its position.
proof fn lemma_cd_parse_props(data: Seq<u8>, pos: int)
    ensures
        cd_parse(data, pos) matches Ok(pair) ==> forall|i: int|
            0 <= i < pair.0.file_headers.len() ==> (#[trigger] pair.0.file_headers[i]).position
                == Some(i),
{
    lemma_cd_headers_props(data, pos, Seq::<CentralDirectoryFileHeaderView>::empty());
}

/// What the resync scan guarantees: entries already collected are kept
/// unchanged, every new entry is exactly the stored file decoded at its
/// own recorded offset with its index as its position, and a captured
/// central directory has its file headers indexed by position.
proof fn lemma_resync_props(
    data: Seq<u8>,
    pos: int,
    files: Seq<StoredFileView>,
    extra: Option<crate::model::ArchiveExtraDataRecordView>,
)
    requires
        0 <= pos <= data.len(),
    ensures
        ({
            let walked = resync(data, pos, files, extra);
            &&& walked.0.len() >= files.len()
            &&& forall|i: int| 0 <= i < files.len() ==> walked.0[i] == #[trigger] files[i]
            &&& forall|i: int|
                files.len() <= i < walked.0.len() ==> (#[trigger] walked.0[i]) == stored_file_at(
                    data,
                    walked.0[i].offset_in_archive,
                    i,
                ) && stored_file_ok(data, walked.0[i].offset_in_archive) && signature_at(
                    data,
                    walked.0[i].offset_in_archive,
                    SIGNATURE_HEADER_LOCAL_FILE,
                ) && pos <= walked.0[i].offset_in_archive
            &&& walked.2 matches Some(cd) ==> forall|i: int|
                0 <= i < cd.file_headers.len() ==> (#[trigger] cd.file_headers[i]).position == Some(
                    i,
                )
        }),
    decreases data.len() - pos,
{
    let walked = resync(data, pos, files, extra);
    if pos + 4 > data.len() {
    } else if crate::format::le32_at(data, pos) == SIGNATURE_HEADER_LOCAL_FILE {
        if stored_file_ok(data, pos) {
            let entry = stored_file_at(data, pos, files.len() as int);
            let files2 = files.push(entry);
            let next = crate::format::stored_file_end(data, pos);
            lemma_resync_props(data, next, files2, extra);
            assert(walked == resync(data, next, files2, extra));
            assert forall|i: int| 0 <= i < files.len() implies walked.0[i] == files[i] by {
                assert(files2[i] == files[i]);
                assert(walked.0[i] == files2[i]);
            }
            assert forall|i: int|
                files.len() <= i < walked.0.len() implies (#[trigger] walked.0[i])
                == stored_file_at(data, walked.0[i].offset_in_archive, i) && stored_file_ok(
                data,
                walked.0[i].offset_in_archive,
            ) && signature_at(data, walked.0[i].offset_in_archive, SIGNATURE_HEADER_LOCAL_FILE)
                && pos <= walked.0[i].offset_in_archive by {
                if i == files.len() {
                    assert(walked.0[i] == files2[i]);
                    assert(files2[i] == entry);
                    assert(entry.offset_in_archive == pos);
                }
            }
        } else {
            lemma_resync_props(data, crate::format::stored_file_fail_pos(data, pos), files, extra);
        }
    } else if crate::format::le32_at(data, pos)
        == crate::constants::SIGNATURE_ARCHIVE_EXTRA_DATA_RECORD {
        if crate::format::archive_extra_data_ok(data, pos + 4) {
            lemma_resync_props(
                data,
                crate::format::archive_extra_data_end(data, pos + 4),
                files,
                Some(crate::format::archive_extra_data_at(data, pos + 4)),
            );
        } else {
            lemma_resync_props(data, pos + 4, files, extra);
        }
    } else if crate::format::le32_at(data, pos)
        == crate::constants::SIGNATURE_HEADER_CENTRAL_DIRECTORY {
        lemma_cd_parse_props(data, pos);
    } else {
        lemma_resync_props(data, pos + 1, files, extra);
    }
}

/// The shared facts behind the public walk lemmas: before
/// reconciliation, the entry at index `i` is exactly the stored file
/// decoded at its own recorded offset with `i` as its position, and a
/// captured central directory has its file headers indexed by position.
proof fn lemma_walk_props(data: Seq<u8>, start: int)
    requires
        0 <= start <= data.len(),
    ensures
        ({
            let after_prefix = prefix_entries(data, start, Seq::<StoredFileView>::empty());
            let walked = resync(data, after_prefix.1, after_prefix.0, None);
            &&& forall|i: int|
                0 <= i < walked.0.len() ==> (#[trigger] walked.0[i]) == stored_file_at(
                    data,
                    walked.0[i].offset_in_archive,
                    i,
                ) && stored_file_ok(data, walked.0[i].offset_in_archive) && signature_at(
                    data,
                    walked.0[i].offset_in_archive,
                    SIGNATURE_HEADER_LOCAL_FILE,
                )
            &&& walked.2 matches Some(cd) ==> forall|i: int|
                0 <= i < cd.file_headers.len() ==> (#[trigger] cd.file_headers[i]).position == Some(
                    i,
                )
            &&& zip_parse(data, start).stored_files == (match walked.2 {
                Some(cd) => reconcile_all(walked.0, cd),
                None => walked.0,
            })
            &&& zip_parse(data, start).central_directory == walked.2
        }),
{
    lemma_prefix_entries_props(data, start, Seq::<StoredFileView>::empty());
    let after_prefix = prefix_entries(data, start, Seq::<StoredFileView>::empty());
    lemma_resync_props(data, after_prefix.1, after_prefix.0, None);
    let walked = resync(data, after_prefix.1, after_prefix.0, None);
    assert forall|i: int|
        0 <= i < walked.0.len() implies (#[trigger] walked.0[i]) == stored_file_at(
        data,
        walked.0[i].offset_in_archive,
        i,
    ) && stored_file_ok(data, walked.0[i].offset_in_archive) && signature_at(
        data,
        walked.0[i].offset_in_archive,
        SIGNATURE_HEADER_LOCAL_FILE,
    ) by {
        if i < after_prefix.0.len() {
            assert(walked.0[i] == after_prefix.0[i]);
        }
    }
}

/// For every stored file of a parsed archive, its `position` equals its
/// index in the stored-files sequence.
pub proof fn lemma_positions_index_stored_files(data: Seq<u8>, start: int)
    requires
        0 <= start <= data.len(),
    ensures
        forall|i: int|
            0 <= i < zip_parse(data, start).stored_files.len() ==> (#[trigger] zip_parse(
                data,
                start,
            ).stored_files[i]).position == i,
{
    lemma_walk_props(data, start);
    let after_prefix = prefix_entries(data, start, Seq::<StoredFileView>::empty());
    let walked = resync(data, after_prefix.1, after_prefix.0, None);
    let parsed = zip_parse(data, start);
    assert forall|i: int| 0 <= i < parsed.stored_files.len() implies (#[trigger] parsed.stored_files[i]).position
        == i by {
        match walked.2 {
            Some(cd) => {
                assert(parsed.stored_files[i] == reconcile_file(walked.0[i], cd));
            },
            None => {},
        }
    }
}

/// For every stored file of a parsed archive, the bytes at its recorded
/// `offset_in_archive` begin with the local-file-header signature.
pub proof fn lemma_offsets_point_at_signatures(data: Seq<u8>, start: int)
    requires
        0 <= start <= data.len(),
    ensures
        forall|i: int|
            0 <= i < zip_parse(data, start).stored_files.len() ==> signature_at(
                data,
                (#[trigger] zip_parse(data, start).stored_files[i]).offset_in_archive,
                SIGNATURE_HEADER_LOCAL_FILE,
            ),
{
    lemma_walk_props(data, start);
    let after_prefix = prefix_entries(data, start, Seq::<StoredFileView>::empty());
    let walked = resync(data, after_prefix.1, after_prefix.0, None);
    let parsed = zip_parse(data, start);
    assert forall|i: int| 0 <= i < parsed.stored_files.len() implies signature_at(
        data,
        (#[trigger] parsed.stored_files[i]).offset_in_archive,
        SIGNATURE_HEADER_LOCAL_FILE,
    ) by {
        match walked.2 {
            Some(cd) => {
                assert(parsed.stored_files[i] == reconcile_file(walked.0[i], cd));
            },
            None => {},
        }
    }
}

/// When a parsed archive has a central directory, every
/// central-directory file header with index `i` carries `Some(i)` as its
/// position.
pub proof fn lemma_cd_positions_index_headers(data: Seq<u8>, start: int)
    requires
        0 <= start <= data.len(),
    ensures
        zip_parse(data, start).central_directory matches Some(cd) ==> forall|i: int|
            0 <= i < cd.file_headers.len() ==> (#[trigger] cd.file_headers[i]).position == Some(i),
{
    lemma_walk_props(data, start);
}

/// Filename reconciliation is symmetric under exact byte equality: a
/// stored file of a parsed archive is marked as found in the central
/// directory exactly when some central-directory file header carries a
/// byte-identical filename — and never when the archive has no central
/// directory.
pub proof fn lemma_reconciliation_is_filename_match(data: Seq<u8>, start: int)
    requires
        0 <= start <= data.len(),
    ensures
        zip_parse(data, start).central_directory matches Some(cd) ==> forall|i: int|
            0 <= i < zip_parse(data, start).stored_files.len() ==> ((#[trigger] zip_parse(
                data,
                start,
            ).stored_files[i]).found_in_central_directory <==> cd_lists_filename(
                cd,
                zip_parse(data, start).stored_files[i].local_file_header.filename,
            )),
        zip_parse(data, start).central_directory is None ==> forall|i: int|
            0 <= i < zip_parse(data, start).stored_files.len() ==> !(#[trigger] zip_parse(
                data,
                start,
            ).stored_files[i]).found_in_central_directory,
{
    lemma_walk_props(data, start);
    let after_prefix = prefix_entries(data, start, Seq::<StoredFileView>::empty());
    let walked = resync(data, after_prefix.1, after_prefix.0, None);
    let parsed = zip_parse(data, start);
    match walked.2 {
        Some(cd) => {
            assert forall|i: int| 0 <= i < parsed.stored_files.len() implies ((
            #[trigger] parsed.stored_files[i]).found_in_central_directory <==> cd_lists_filename(
                cd,
                parsed.stored_files[i].local_file_header.filename,
            )) by {
                assert(parsed.stored_files[i] == reconcile_file(walked.0[i], cd));
                assert(!walked.0[i].found_in_central_directory);
            }
        },
        None => {},
    }
}

/// For every stored file of a parsed archive, the retained payload holds
/// at most `compressed_size` bytes — fewer only when the input ended
/// before the whole payload.
pub proof fn lemma_payload_capped_by_compressed_size(data: Seq<u8>, start: int)
    requires
        0 <= start <= data.len(),
    ensures
        forall|i: int|
            0 <= i < zip_parse(data, start).stored_files.len() ==> (#[trigger] zip_parse(
                data,
                start,
            ).stored_files[i]).file_data.len() <= zip_parse(
                data,
                start,
            ).stored_files[i].local_file_header.compressed_size,
{
    lemma_walk_props(data, start);
    let after_prefix = prefix_entries(data, start, Seq::<StoredFileView>::empty());
    let walked = resync(data, after_prefix.1, after_prefix.0, None);
    let parsed = zip_parse(data, start);
    assert forall|i: int| 0 <= i < parsed.stored_files.len() implies (#[trigger] parsed.stored_files[i]).file_data.len()
        <= parsed.stored_files[i].local_file_header.compressed_size by {
        match walked.2 {
            Some(cd) => {
                assert(parsed.stored_files[i] == reconcile_file(walked.0[i], cd));
            },
            None => {},
        }
        assert(walked.0[i] == stored_file_at(data, walked.0[i].offset_in_archive, i));
    }
}

/// The total number of payload bytes held by a sequence of stored files.
pub open spec fn total_payload_bytes(files: Seq<StoredFileView>) -> int
    decreases files.len(),
{
    if files.len() == 0 {
        0
    } else {
        total_payload_bytes(files.drop_last()) + files.last().file_data.len()
    }
}

/// The sum of the local-file-header `compressed_size` fields of a
/// sequence of stored files.
pub open spec fn total_compressed_size(files: Seq<StoredFileView>) -> int
    decreases files.len(),
{
    if files.len() == 0 {
        0
    } else {
        total_compressed_size(files.drop_last()) + files.last().local_file_header.compressed_size
    }
}

/// Bounded retention: when no payload was cut short by the end of the
/// input, the total bytes held by stored-file payloads equal the sum of
/// the local-file-header `compressed_size` fields. (An entry whose
/// `compressed_size` exceeds the remaining input retains fewer bytes,
/// and the totals then fall apart; such entries are excluded here.)
pub proof fn lemma_bounded_retention(files: Seq<StoredFileView>)
    requires
        forall|i: int|
            0 <= i < files.len() ==> (#[trigger] files[i]).file_data.len()
                == files[i].local_file_header.compressed_size,
    ensures
        total_payload_bytes(files) == total_compressed_size(files),
    decreases files.len(),
{
    if files.len() > 0 {
        lemma_bounded_retention(files.drop_last());
    }
}

/// Bounded retention over a whole parsed archive: when no payload of the
/// parse was cut short by the end of the input, the total bytes held by
/// its stored-file payloads equal the sum of its local-file-header
/// `compressed_size` fields.
pub proof fn lemma_zip_parse_bounded_retention(data: Seq<u8>, start: int)
    requires
        0 <= start <= data.len(),
    ensures
        (forall|i: int|
            0 <= i < zip_parse(data, start).stored_files.len() ==> (#[trigger] zip_parse(
                data,
                start,
            ).stored_files[i]).file_data.len()
                == zip_parse(data, start).stored_files[i].local_file_header.compressed_size)
            ==> total_payload_bytes(zip_parse(data, start).stored_files) == total_compressed_size(
            zip_parse(data, start).stored_files,
        ),
{
    if forall|i: int|
        0 <= i < zip_parse(data, start).stored_files.len() ==> (#[trigger] zip_parse(
            data,
            start,
        ).stored_files[i]).file_data.len() == zip_parse(
            data,
            start,
        ).stored_files[i].local_file_header.compressed_size {
        lemma_bounded_retention(zip_parse(data, start).stored_files);
    }
}

/// Filename matching is byte-exact: two byte sequences decode to the
/// same string exactly when they are the same bytes, so comparing
/// decoded filenames compares the underlying filename bytes.
pub proof fn lemma_string_decoding_is_byte_exact(left: Seq<u8>, right: Seq<u8>)
    ensures
        chars_of(left) == chars_of(right) <==> left == right,
{
    if chars_of(left) == chars_of(right) {
        assert(chars_of(left).len() == left.len());
        assert(chars_of(right).len() == right.len());
        assert forall|i: int| 0 <= i < left.len() implies left[i] == right[i] by {
            assert(chars_of(left)[i] == left[i] as char);
            assert(chars_of(right)[i] == right[i] as char);
            assert((left[i] as char) as u32 == left[i] as u32);
            assert((right[i] as char) as u32 == right[i] as u32);
        }
        assert(left =~= right);
    }
}

/// Round-trip of 16-bit decoding: re-encoding the decoded integer in
/// little-endian order yields the input bytes again.
pub proof fn lemma_u16_round_trip(bytes: Seq<u8>)
    requires
        bytes.len() == 2,
    ensures
        le16_bytes(le16_value(bytes)) == bytes,
{
    let b0 = bytes[0] as int;
    let b1 = bytes[1] as int;
    assert((b0 + b1 * 0x100) % 0x100 == b0 && (b0 + b1 * 0x100) / 0x100 == b1) by (nonlinear_arith)
        requires
            0 <= b0 < 0x100,
            0 <= b1 < 0x100,
    ;
    assert(le16_bytes(le16_value(bytes)) =~= bytes);
}

/// Round-trip of 32-bit decoding: re-encoding the decoded integer in
/// little-endian order yields the input bytes again.
pub proof fn lemma_u32_round_trip(bytes: Seq<u8>)
    requires
        bytes.len() == 4,
    ensures
        le32_bytes(le32_value(bytes)) == bytes,
{
    let b0 = bytes[0] as int;
    let b1 = bytes[1] as int;
    let b2 = bytes[2] as int;
    let b3 = bytes[3] as int;
    let value = b0 + b1 * 0x100 + b2 * 0x10000 + b3 * 0x1000000;
    assert(value % 0x100 == b0 && (value / 0x100) % 0x100 == b1 && (value / 0x10000) % 0x100 == b2
        && value / 0x1000000 == b3) by (nonlinear_arith)
        requires
            value == b0 + b1 * 0x100 + b2 * 0x10000 + b3 * 0x1000000,
            0 <= b0 < 0x100,
            0 <= b1 < 0x100,
            0 <= b2 < 0x100,
            0 <= b3 < 0x100,
    ;
    assert(le32_bytes(le32_value(bytes)) =~= bytes);
}

/// Parsing is a function of the input bytes alone: two models of the
/// same input are equal under structural comparison of all fields, so
/// parsing the same input twice yields equal models.
pub proof fn lemma_parse_deterministic(
    data: Seq<u8>,
    start: int,
    first: ZipFileView,
    second: ZipFileView,
)
    requires
        first == zip_parse(data, start),
        second == zip_parse(data, start),
    ensures
        first == second,
{
}

} // verus!
