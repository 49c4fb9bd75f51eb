//! The decisions of the backup and recovery commands.

use vstd::prelude::*;
use crate::paths::{
    extension_of, file_name, file_name_of_path, final_component, join_path, joined, lemma_final_component_is_a_name,
    path_extension, portable_path, relative_name, verbatim_path,
};
use crate::text::{
    all_ascii, ascii_lower, decimal, ends_with, lex_lt, opt_view, or_empty, push_decimal, push_str, str_eq, str_lt,
    to_lowercase, to_owned, unicode_lowercase,
};

verus! {

/// What is recorded about a backed-up file.
pub struct BackupMetadata {
    pub file_permissions: Option<String>,
    pub file_modified: Option<String>,
    pub file_created: Option<String>,
    pub mime_type: Option<String>,
    pub compressed: bool,
    pub encrypted: bool,
}

/// One backed-up file.
pub struct BackupEntry {
    pub id: String,
    pub operation_id: String,
    pub original_path: String,
    pub backup_path: String,
    pub file_size: u64,
    pub file_hash: String,
    pub created_at: String,
    pub operation_type: String,
    pub metadata: BackupMetadata,
}

/// Why a file could not be recovered.
pub struct RecoveryError {
    pub backup_id: String,
    pub original_path: String,
    pub error_message: String,
    pub error_type: String,
}

/// The MIME type a backup records for a file with extension `ext`, by the
/// lower case of the extension (ASCII lower case for an ASCII extension, the
/// Unicode one otherwise): JPEG, PNG, PDF, plain text and JSON
/// are recognised, anything else is an octet stream.
pub open spec fn mime_for_extension(ext: Seq<char>) -> Seq<char> {
    let e = if all_ascii(ext) { ascii_lower(ext) } else { unicode_lowercase(ext) };
    if e == "jpg"@ || e == "jpeg"@ {
        "image/jpeg"@
    } else if e == "png"@ {
        "image/png"@
    } else if e == "pdf"@ {
        "application/pdf"@
    } else if e == "txt"@ {
        "text/plain"@
    } else if e == "json"@ {
        "application/json"@
    } else {
        "application/octet-stream"@
    }
}

/// The MIME type a backup records for a file whose final path component is
/// `name`: none without an extension.
pub open spec fn mime_for_name(name: Option<Seq<char>>) -> Option<Seq<char>> {
    match path_extension(name) {
        Some(e) => Some(mime_for_extension(e)),
        None => None,
    }
}

/// The MIME type of a file, given the final component of its path.
pub fn detect_mime_type_given(name: &Option<String>) -> (r: Option<String>)
    ensures
        opt_view(r) == mime_for_name(opt_view(*name)),
{
    match extension_of(name) {
        Some(ext) => {
            let lower = to_lowercase(ext.as_str());
            let e = lower.as_str();
            let m = if str_eq(e, "jpg") || str_eq(e, "jpeg") {
                "image/jpeg"
            } else if str_eq(e, "png") {
                "image/png"
            } else if str_eq(e, "pdf") {
                "application/pdf"
            } else if str_eq(e, "txt") {
                "text/plain"
            } else if str_eq(e, "json") {
                "application/json"
            } else {
                "application/octet-stream"
            };
            Some(to_owned(m))
        },
        None => None,
    }
}

/// The MIME type of the file at `file_path`, with the file name that the
/// platform reads off the path.
pub fn detect_mime_type(file_path: &str) -> (r: Option<String>)
    ensures
        exists|name: Option<Seq<char>>| file_name_of_path(file_path@, name) && opt_view(r) == mime_for_name(name),
{
    let name = file_name(file_path);
    detect_mime_type_given(&name)
}

/// Compresses a backup file in place; backups are stored as they are, so
/// this always succeeds and changes nothing.
pub fn compress_backup_file(file_path: &str) -> (r: Result<(), String>)
    ensures
        r is Ok,
{
    Ok(())
}

/// Encrypts a backup file in place; backups are stored as they are, so this
/// always succeeds and changes nothing.
pub fn encrypt_backup_file(file_path: &str) -> (r: Result<(), String>)
    ensures
        r is Ok,
{
    Ok(())
}

/// The file to recover from an encrypted backup: the backup file itself.
pub fn decrypt_backup_file(file_path: &str) -> (r: Result<String, RecoveryError>)
    ensures
        r matches Ok(p) && p@ == file_path@,
{
    Ok(to_owned(file_path))
}

/// The file to recover from a compressed backup: the backup file itself.
pub fn decompress_backup_file(file_path: &str) -> (r: Result<String, RecoveryError>)
    ensures
        r matches Ok(p) && p@ == file_path@,
{
    Ok(to_owned(file_path))
}

/// The verdict on a backup file of `found` bytes (none when it is missing)
/// that should hold `expected` bytes.
pub open spec fn size_verdict(expected: u64, found: Option<u64>) -> (bool, Seq<char>) {
    match found {
        Some(n) => if n == expected {
            (true, "Backup file is valid"@)
        } else {
            (false, "File size mismatch: expected "@ + decimal(expected as nat) + ", found "@ + decimal(n as nat))
        },
        None => (false, "Backup file not found"@),
    }
}

/// Whether a backup file has the size it should, and the message saying so.
pub fn verify_backup_size(expected: u64, found: Option<u64>) -> (r: (bool, String))
    ensures
        r.0 == size_verdict(expected, found).0,
        r.1@ == size_verdict(expected, found).1,
{
    match found {
        Some(n) => if n == expected {
            (true, to_owned("Backup file is valid"))
        } else {
            let mut s = to_owned("File size mismatch: expected ");
            push_decimal(&mut s, expected);
            push_str(&mut s, ", found ");
            push_decimal(&mut s, n);
            (false, s)
        },
        None => (false, to_owned("Backup file not found")),
    }
}

/// The entries of `entries` that belong to `operation_id`, in order.
pub open spec fn entries_of_operation(entries: Seq<BackupEntry>, operation_id: Seq<char>) -> Seq<BackupEntry>
    decreases entries.len(),
{
    if entries.len() == 0 {
        Seq::<BackupEntry>::empty()
    } else {
        let init = entries_of_operation(entries.drop_last(), operation_id);
        if entries.last().operation_id@ == operation_id {
            init.push(entries.last())
        } else {
            init
        }
    }
}

/// The backups of one operation, or all of them when no operation is named.
pub fn filter_backups(entries: Vec<BackupEntry>, operation_id: Option<String>) -> (r: Vec<BackupEntry>)
    ensures
        r@ == match operation_id {
            Some(op) => entries_of_operation(entries@, op@),
            None => entries@,
        },
{
    match operation_id {
        None => entries,
        Some(op) => {
            let ghost all = entries@;
            let total = entries.len();
            let mut rest = entries;
            let mut kept: Vec<BackupEntry> = Vec::new();
            let mut i: usize = 0;
            assert(all.skip(0) =~= all);
            while rest.len() > 0
                invariant
                    rest@.len() + i == all.len(),
                    all.len() <= usize::MAX,
                    rest@ == all.skip(i as int),
                    kept@ == entries_of_operation(all.take(i as int), op@),
                decreases rest@.len(),
            {
                let e = rest.remove(0);
                proof {
                    assert(e == all[i as int]);
                    assert(all.take(i + 1).drop_last() =~= all.take(i as int));
                    assert(all.take(i + 1).last() == all[i as int]);
                    assert(rest@ =~= all.skip(i + 1));
                }
                if str_eq(e.operation_id.as_str(), op.as_str()) {
                    kept.push(e);
                }
                i = i + 1;
            }
            assert(all.take(all.len() as int) =~= all);
            kept
        },
    }
}

/// The first backup with id `backup_id`, if there is one.
pub fn find_backup<'a>(entries: &'a [BackupEntry], backup_id: &str) -> (r: Option<&'a BackupEntry>)
    ensures
        r matches Some(e) ==> exists|k: int|
            0 <= k < entries@.len() && entries@[k] == *e && e.id@ == backup_id@
                && forall|j: int| 0 <= j < k ==> #[trigger] entries@[j].id@ != backup_id@,
        r is None ==> forall|i: int| 0 <= i < entries@.len() ==> #[trigger] entries@[i].id@ != backup_id@,
{
    let mut i: usize = 0;
    while i < entries.len()
        invariant
            i <= entries@.len(),
            forall|j: int| 0 <= j < i ==> #[trigger] entries@[j].id@ != backup_id@,
        decreases entries@.len() - i,
    {
        if str_eq(entries[i].id.as_str(), backup_id) {
            assert(entries@[i as int] == entries[i as int]);
            return Some(&entries[i]);
        }
        i = i + 1;
    }
    None
}

/// The error for a requested backup that does not exist.
pub fn backup_not_found(backup_id: &str) -> (r: RecoveryError)
    ensures
        r.backup_id@ == backup_id@,
        r.original_path@ == "Unknown"@,
        r.error_message@ == "Backup not found"@,
        r.error_type@ == "NOT_FOUND"@,
{
    RecoveryError {
        backup_id: to_owned(backup_id),
        original_path: to_owned("Unknown"),
        error_message: to_owned("Backup not found"),
        error_type: to_owned("NOT_FOUND"),
    }
}

/// The total size of the backups.
pub open spec fn total_size(entries: Seq<BackupEntry>) -> nat
    decreases entries.len(),
{
    if entries.len() == 0 {
        0
    } else {
        total_size(entries.drop_last()) + (entries.last().file_size as nat)
    }
}

/// The creation time of the oldest backup: the first of the smallest.
pub open spec fn oldest_created(entries: Seq<BackupEntry>) -> Option<Seq<char>>
    decreases entries.len(),
{
    if entries.len() == 0 {
        None
    } else {
        let c = entries.last().created_at@;
        match oldest_created(entries.drop_last()) {
            None => Some(c),
            Some(m) => if lex_lt(c, m) { Some(c) } else { Some(m) },
        }
    }
}

/// The creation time of the newest backup: the last of the largest.
pub open spec fn newest_created(entries: Seq<BackupEntry>) -> Option<Seq<char>>
    decreases entries.len(),
{
    if entries.len() == 0 {
        None
    } else {
        let c = entries.last().created_at@;
        match newest_created(entries.drop_last()) {
            None => Some(c),
            Some(m) => if !lex_lt(c, m) { Some(c) } else { Some(m) },
        }
    }
}

/// The count, total size and time span of a set of backups.
pub struct BackupSummary {
    pub total_backups: u32,
    pub total_size_bytes: u64,
    pub oldest_backup: Option<String>,
    pub newest_backup: Option<String>,
}

/// The count (as a 32-bit number), total size, oldest and newest creation
/// time of the backups; creation times are compared as text.
pub fn backup_summary(entries: &[BackupEntry]) -> (r: BackupSummary)
    requires
        total_size(entries@) <= u64::MAX,
    ensures
        r.total_backups == entries@.len() as u32,
        r.total_size_bytes == total_size(entries@),
        opt_view(r.oldest_backup) == oldest_created(entries@),
        opt_view(r.newest_backup) == newest_created(entries@),
{
    let mut size: u64 = 0;
    let mut oldest: Option<String> = None;
    let mut newest: Option<String> = None;
    let mut i: usize = 0;
    while i < entries.len()
        invariant
            i <= entries@.len(),
            total_size(entries@) <= u64::MAX,
            size == total_size(entries@.take(i as int)),
            opt_view(oldest) == oldest_created(entries@.take(i as int)),
            opt_view(newest) == newest_created(entries@.take(i as int)),
        decreases entries@.len() - i,
    {
        let ghost t = entries@.take(i + 1);
        assert(t.drop_last() =~= entries@.take(i as int));
        assert(t.last() == entries@[i as int]);
        proof {
            lemma_total_size_prefix(entries@, i + 1);
        }
        let e = &entries[i];
        size = size + e.file_size;
        let c = e.created_at.as_str();
        oldest = match oldest {
            None => Some(e.created_at.clone()),
            Some(m) => if str_lt(c, m.as_str()) { Some(e.created_at.clone()) } else { Some(m) },
        };
        newest = match newest {
            None => Some(e.created_at.clone()),
            Some(m) => if !str_lt(c, m.as_str()) { Some(e.created_at.clone()) } else { Some(m) },
        };
        i = i + 1;
    }
    assert(entries@.take(entries@.len() as int) =~= entries@);
    BackupSummary {
        total_backups: #[verifier::truncate] (entries.len() as u32),
        total_size_bytes: size,
        oldest_backup: oldest,
        newest_backup: newest,
    }
}

proof fn lemma_total_size_prefix(s: Seq<BackupEntry>, k: int)
    requires
        0 <= k <= s.len(),
    ensures
        total_size(s.take(k)) <= total_size(s),
    decreases s.len() - k,
{
    if k < s.len() {
        lemma_total_size_prefix(s, k + 1);
        assert(s.take(k + 1).drop_last() =~= s.take(k));
    } else {
        assert(s.take(k) =~= s);
    }
}

/// A request to restore backed-up files.
pub struct RecoveryRequest {
    pub backup_ids: Vec<String>,
    pub recovery_location: Option<String>,
    pub overwrite_existing: bool,
    pub verify_integrity: bool,
}

/// A file restored from its backup.
pub struct RecoveredFile {
    pub backup_id: String,
    pub original_path: String,
    pub recovered_path: String,
    pub file_size: u64,
    pub integrity_verified: bool,
}

/// The outcome of a recovery request.
pub struct RecoveryResult {
    pub recovered_files: Vec<RecoveredFile>,
    pub failed_recoveries: Vec<RecoveryError>,
    pub total_recovered: u32,
    pub total_failed: u32,
}

/// The error for `backup` with `message` and the error kind `kind`.
pub fn recovery_error(backup: &BackupEntry, message: String, kind: &str) -> (r: RecoveryError)
    ensures
        r.backup_id@ == backup.id@,
        r.original_path@ == backup.original_path@,
        r.error_message@ == message@,
        r.error_type@ == kind@,
{
    RecoveryError {
        backup_id: backup.id.clone(),
        original_path: backup.original_path.clone(),
        error_message: message,
        error_type: to_owned(kind),
    }
}

/// Why `backup` is not restored before anything is written: its backup file
/// is missing (`FILE_NOT_FOUND`), or the target exists and may not be
/// overwritten (`FILE_EXISTS`).
pub fn recovery_refusal(backup: &BackupEntry, backup_exists: bool, target_exists: bool, overwrite_existing: bool) -> (r: Option<RecoveryError>)
    ensures
        !backup_exists ==> (r matches Some(e) && e.backup_id@ == backup.id@ && e.original_path@ == backup.original_path@
            && e.error_message@ == "Backup file not found"@ && e.error_type@ == "FILE_NOT_FOUND"@),
        backup_exists && target_exists && !overwrite_existing ==> (r matches Some(e) && e.backup_id@ == backup.id@
            && e.original_path@ == backup.original_path@
            && e.error_message@ == "Target file exists and overwrite not allowed"@ && e.error_type@ == "FILE_EXISTS"@),
        backup_exists && !(target_exists && !overwrite_existing) ==> r is None,
{
    if !backup_exists {
        Some(recovery_error(backup, to_owned("Backup file not found"), "FILE_NOT_FOUND"))
    } else if target_exists && !overwrite_existing {
        Some(recovery_error(backup, to_owned("Target file exists and overwrite not allowed"), "FILE_EXISTS"))
    } else {
        None
    }
}

/// Where a backed-up file is restored: its original path, or, when a
/// recovery location is given, that location joined with the original's
/// file name (with nothing when the original path has none). For a
/// portable original path and a location without a verbatim prefix this is
/// the location, a separator unless the location already ends in one, and
/// the original's final component.
pub fn recovery_target(original_path: &str, recovery_location: &Option<String>) -> (r: String)
    ensures
        match recovery_location {
            None => r@ == original_path@,
            Some(loc) => {
                &&& exists|name: Option<Seq<char>>|
                    file_name_of_path(original_path@, name) && (relative_name(or_empty(name)) && !verbatim_path(loc@)
                        ==> joined(loc@, or_empty(name), r@))
                &&& portable_path(original_path@) && !verbatim_path(loc@) ==> joined(
                    loc@,
                    or_empty(final_component(original_path@)),
                    r@,
                )
            },
        },
{
    match recovery_location {
        None => to_owned(original_path),
        Some(loc) => {
            let name = file_name(original_path);
            let n: &str = match &name {
                Some(n) => n.as_str(),
                None => "",
            };
            proof {
                reveal_strlit("");
                if portable_path(original_path@) {
                    lemma_final_component_is_a_name(original_path@);
                }
            }
            assert(n@ == or_empty(opt_view(name)));
            join_path(loc.as_str(), n)
        },
    }
}

/// The name a backed-up file gets: the backup id, `_`, and the original's
/// file name (`unknown` when the original path has none).
pub open spec fn backup_leaf(backup_id: Seq<char>, name: Option<Seq<char>>) -> Seq<char> {
    backup_id + "_"@ + match name {
        Some(n) => n,
        None => "unknown"@,
    }
}

/// `d1` is `location` joined with the operation id, `d2` is `d1` joined with
/// the timestamp, and `r` is `d2` joined with `leaf`, each join as
/// `Path::join` makes it.
pub open spec fn backup_chain(location: Seq<char>, operation_id: Seq<char>, timestamp: Seq<char>, leaf: Seq<char>, d1: Seq<char>, d2: Seq<char>, r: Seq<char>) -> bool {
    &&& relative_name(operation_id) && !verbatim_path(location) ==> joined(location, operation_id, d1)
    &&& relative_name(timestamp) && !verbatim_path(d1) ==> joined(d1, timestamp, d2)
    &&& relative_name(leaf) && !verbatim_path(d2) ==> joined(d2, leaf, r)
}

/// `r` is `location` joined with the operation id, then the timestamp, then
/// `leaf`.
pub open spec fn backup_path_of(location: Seq<char>, operation_id: Seq<char>, timestamp: Seq<char>, leaf: Seq<char>, r: Seq<char>) -> bool {
    exists|d1: Seq<char>, d2: Seq<char>| #[trigger] backup_chain(location, operation_id, timestamp, leaf, d1, d2, r)
}

/// Where a file is backed up: under the backup location, in a directory for
/// the operation and one for the time of the backup, as the backup id, `_`
/// and the original's file name `name` (`unknown` without one).
pub fn backup_file_path(location: &str, operation_id: &str, timestamp: &str, backup_id: &str, name: &Option<String>) -> (r: String)
    ensures
        backup_path_of(location@, operation_id@, timestamp@, backup_leaf(backup_id@, opt_view(*name)), r@),
        relative_name(backup_leaf(backup_id@, opt_view(*name))) ==> ends_with(r@, backup_leaf(backup_id@, opt_view(*name))),
{
    let d1 = join_path(location, operation_id);
    let d2 = join_path(d1.as_str(), timestamp);
    let mut leaf = to_owned(backup_id);
    push_str(&mut leaf, "_");
    match name {
        Some(n) => push_str(&mut leaf, n.as_str()),
        None => push_str(&mut leaf, "unknown"),
    }
    proof {
        reveal_strlit("_");
        let l = backup_leaf(backup_id@, opt_view(*name));
        assert(leaf@ =~= l);
        assert(l[backup_id@.len() as int] == '_');
        assert(l != seq!['.'] && l != seq!['.', '.']) by {
            if l == seq!['.'] || l == seq!['.', '.'] {
                assert(l[backup_id@.len() as int] == '.');
            }
        }
    }
    let r = join_path(d2.as_str(), leaf.as_str());
    assert(backup_path_of(location@, operation_id@, timestamp@, leaf@, r@)) by {
        assert(backup_chain(location@, operation_id@, timestamp@, leaf@, d1@, d2@, r@));
    }
    r
}

/// The record of a file backed up to `backup_path`: its id, operation,
/// original and backup paths, size, content hash and creation time as
/// given, the operation type `file_move`, no permissions, the given
/// modification and creation times, the MIME type of the original's name,
/// and whether the backup was compressed and encrypted.
pub fn backup_entry(
    id: String,
    operation_id: &str,
    original_path: &str,
    backup_path: String,
    file_size: u64,
    file_hash: String,
    created_at: String,
    file_modified: Option<String>,
    file_created: Option<String>,
    compressed: bool,
    encrypted: bool,
) -> (r: BackupEntry)
    ensures
        r.id@ == id@,
        r.operation_id@ == operation_id@,
        r.original_path@ == original_path@,
        r.backup_path@ == backup_path@,
        r.file_size == file_size,
        r.file_hash@ == file_hash@,
        r.created_at@ == created_at@,
        r.operation_type@ == "file_move"@,
        r.metadata.file_permissions is None,
        opt_view(r.metadata.file_modified) == opt_view(file_modified),
        opt_view(r.metadata.file_created) == opt_view(file_created),
        exists|name: Option<Seq<char>>|
            file_name_of_path(original_path@, name) && opt_view(r.metadata.mime_type) == mime_for_name(name),
        r.metadata.compressed == compressed,
        r.metadata.encrypted == encrypted,
{
    BackupEntry {
        id,
        operation_id: to_owned(operation_id),
        original_path: to_owned(original_path),
        backup_path,
        file_size,
        file_hash,
        created_at,
        operation_type: to_owned("file_move"),
        metadata: BackupMetadata {
            file_permissions: None,
            file_modified,
            file_created,
            mime_type: detect_mime_type(original_path),
            compressed,
            encrypted,
        },
    }
}

/// The file to copy back from `backup`: its backup file, decrypted when the
/// backup is encrypted and then decompressed when it is compressed.
pub fn recovery_source(backup: &BackupEntry) -> (r: Result<String, RecoveryError>)
    ensures
        r matches Ok(p) && p@ == backup.backup_path@,
{
    let mut path = backup.backup_path.clone();
    if backup.metadata.encrypted {
        path = decrypt_backup_file(path.as_str())?;
    }
    if backup.metadata.compressed {
        path = decompress_backup_file(path.as_str())?;
    }
    Ok(path)
}

/// The record of `backup` restored to `recovered_path`; its integrity counts
/// as verified unless a check was asked for and the content hash differed.
pub fn recovered_file(backup: &BackupEntry, recovered_path: String, verify_requested: bool, hash_matches: bool) -> (r: RecoveredFile)
    ensures
        r.backup_id@ == backup.id@,
        r.original_path@ == backup.original_path@,
        r.recovered_path@ == recovered_path@,
        r.file_size == backup.file_size,
        r.integrity_verified == (!verify_requested || hash_matches),
{
    RecoveredFile {
        backup_id: backup.id.clone(),
        original_path: backup.original_path.clone(),
        recovered_path,
        file_size: backup.file_size,
        integrity_verified: !verify_requested || hash_matches,
    }
}

/// The running outcome of a recovery request.
pub struct RecoveryTally {
    pub recovered_files: Vec<RecoveredFile>,
    pub failed_recoveries: Vec<RecoveryError>,
}

impl RecoveryTally {
    /// Nothing recovered yet.
    pub fn new() -> (r: RecoveryTally)
        ensures
            r.recovered_files@.len() == 0,
            r.failed_recoveries@.len() == 0,
    {
        RecoveryTally { recovered_files: Vec::new(), failed_recoveries: Vec::new() }
    }

    /// Adds the outcome for one requested backup.
    pub fn record(&mut self, outcome: Result<RecoveredFile, RecoveryError>)
        ensures
            match outcome {
                Ok(f) => final(self).recovered_files@ == old(self).recovered_files@.push(f)
                    && final(self).failed_recoveries@ == old(self).failed_recoveries@,
                Err(e) => final(self).failed_recoveries@ == old(self).failed_recoveries@.push(e)
                    && final(self).recovered_files@ == old(self).recovered_files@,
            },
    {
        match outcome {
            Ok(f) => self.recovered_files.push(f),
            Err(e) => self.failed_recoveries.push(e),
        }
    }

    /// The result, with both counts as 32-bit numbers.
    pub fn finish(self) -> (r: RecoveryResult)
        ensures
            r.recovered_files@ == self.recovered_files@,
            r.failed_recoveries@ == self.failed_recoveries@,
            r.total_recovered == self.recovered_files@.len() as u32,
            r.total_failed == self.failed_recoveries@.len() as u32,
    {
        let total_recovered: u32 = #[verifier::truncate] (self.recovered_files.len() as u32);
        let total_failed: u32 = #[verifier::truncate] (self.failed_recoveries.len() as u32);
        RecoveryResult {
            recovered_files: self.recovered_files,
            failed_recoveries: self.failed_recoveries,
            total_recovered,
            total_failed,
        }
    }
}

/// `chrono::DateTime::parse_from_rfc3339(s)`, taken as the instant it names:
/// its UTC Unix timestamp (`timestamp`) and the nanoseconds within that
/// second (`timestamp_subsec_nanos`), or none when `s` is no RFC 3339 date
/// and time.
pub uninterp spec fn rfc3339_instant(s: Seq<char>) -> Option<(i64, u32)>;

/// `chrono::DateTime::parse_from_rfc3339`, then `timestamp` and
/// `timestamp_subsec_nanos` of the result: the result is the named instant of
/// `s`.
#[verifier::external_body]
fn parse_instant(s: &str) -> (r: Option<(i64, u32)>)
    ensures
        r == rfc3339_instant(s@),
{
    match chrono::DateTime::parse_from_rfc3339(s) {
        Ok(t) => Some((t.timestamp(), t.timestamp_subsec_nanos())),
        Err(_) => None,
    }
}

/// Whether a backup created at `created` (none when its time could not be
/// read) lies before the retention cutoff: `retention_days` days before the
/// instant `now_secs`, `now_nanos`.
pub open spec fn before_retention(created: Option<(i64, u32)>, now_secs: i64, now_nanos: u32, retention_days: u32) -> bool {
    match created {
        Some((s, n)) => {
            let cutoff = now_secs - retention_days * 86400;
            s < cutoff || (s == cutoff && n < now_nanos)
        },
        None => false,
    }
}

/// Whether a backup created at `created` lies before the retention cutoff.
pub fn past_retention(created: Option<(i64, u32)>, now_secs: i64, now_nanos: u32, retention_days: u32) -> (r: bool)
    ensures
        r == before_retention(created, now_secs, now_nanos, retention_days),
{
    match created {
        Some((s, n)) => {
            let cutoff: i128 = now_secs as i128 - (retention_days as i128) * 86400;
            (s as i128) < cutoff || ((s as i128) == cutoff && n < now_nanos)
        },
        None => false,
    }
}

/// Whether the backup created at `created_at` (an RFC 3339 date and time) is
/// due for clean-up at the instant `now_secs`, `now_nanos`; a backup whose
/// time cannot be read is kept.
pub fn backup_due_for_cleanup(created_at: &str, now_secs: i64, now_nanos: u32, retention_days: u32) -> (r: bool)
    ensures
        r == before_retention(rfc3339_instant(created_at@), now_secs, now_nanos, retention_days),
{
    past_retention(parse_instant(created_at), now_secs, now_nanos, retention_days)
}

/// The backups listed for an operation all belong to it, and none of its
/// backups is left out.
pub proof fn law_filtered_backups_belong_to_the_operation(entries: Seq<BackupEntry>, operation_id: Seq<char>)
    ensures
        forall|i: int| 0 <= i < entries_of_operation(entries, operation_id).len()
            ==> (#[trigger] entries_of_operation(entries, operation_id)[i]).operation_id@ == operation_id,
        forall|i: int| 0 <= i < entries.len() && (#[trigger] entries[i]).operation_id@ == operation_id
            ==> entries_of_operation(entries, operation_id).contains(entries[i]),
    decreases entries.len(),
{
    if entries.len() > 0 {
        let init = entries.drop_last();
        law_filtered_backups_belong_to_the_operation(init, operation_id);
        let r = entries_of_operation(entries, operation_id);
        let ri = entries_of_operation(init, operation_id);
        assert forall|i: int| 0 <= i < r.len() implies (#[trigger] r[i]).operation_id@ == operation_id by {
            if i < ri.len() {
                assert(r[i] == ri[i]);
            }
        }
        assert forall|i: int| 0 <= i < entries.len() && (#[trigger] entries[i]).operation_id@ == operation_id
            implies r.contains(entries[i]) by {
            if i < init.len() {
                assert(entries[i] == init[i]);
                let j = choose|j: int| 0 <= j < ri.len() && ri[j] == init[i];
                assert(r[j] == ri[j]);
            } else {
                assert(r[r.len() - 1] == entries.last());
            }
        }
    }
}

/// A backup that is due for clean-up stays due: at any later instant, and
/// with a shorter retention.
pub proof fn law_cleanup_due_stays_due(
    created: Option<(i64, u32)>,
    now_secs: i64,
    now_nanos: u32,
    later_secs: i64,
    later_nanos: u32,
    retention_days: u32,
    shorter_days: u32,
)
    requires
        before_retention(created, now_secs, now_nanos, retention_days),
        now_secs < later_secs || (now_secs == later_secs && now_nanos <= later_nanos),
        shorter_days <= retention_days,
    ensures
        before_retention(created, later_secs, later_nanos, retention_days),
        before_retention(created, now_secs, now_nanos, shorter_days),
{
}

} // verus!
