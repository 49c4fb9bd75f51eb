//! The records the engine produces: indexed files and planned operations.

use vstd::prelude::*;
use crate::text::{hex_digit, hex_digit_char, push_char, to_owned};

verus! {

/// A file as the index stores it. `id` is derived from the path, so a file
/// keeps its id across re-indexing.
pub struct FileRow {
    pub id: u128,
    pub path: String,
    pub size: i64,
    pub mtime: i64,
    pub hash_short: Option<String>,
    pub tags_json: String,
}

/// A planned file operation.
pub enum Op {
    MoveTo { path: String },
    CopyTo { path: String },
    Tag { tags: Vec<String> },
    Rename { pattern: String },
    Quarantine,
}

/// The contents of an [`Op`].
pub enum OpView {
    MoveTo(Seq<char>),
    CopyTo(Seq<char>),
    Tag(Seq<Seq<char>>),
    Rename(Seq<char>),
    Quarantine,
}

impl View for Op {
    type V = OpView;

    open spec fn view(&self) -> OpView {
        match self {
            Op::MoveTo { path } => OpView::MoveTo(path@),
            Op::CopyTo { path } => OpView::CopyTo(path@),
            Op::Tag { tags } => OpView::Tag(tags@.map_values(|t: String| t@)),
            Op::Rename { pattern } => OpView::Rename(pattern@),
            Op::Quarantine => OpView::Quarantine,
        }
    }
}

/// One entry of a dry-run plan: the operation a rule would apply to a file.
pub struct DryRunAction {
    pub file_path: String,
    pub op: Op,
    pub rule_id: u128,
    pub rule_name: String,
}

/// The contents of a [`DryRunAction`].
pub struct DryRunActionView {
    pub file_path: Seq<char>,
    pub op: OpView,
    pub rule_id: u128,
    pub rule_name: Seq<char>,
}

impl View for DryRunAction {
    type V = DryRunActionView;

    open spec fn view(&self) -> DryRunActionView {
        DryRunActionView {
            file_path: self.file_path@,
            op: self.op@,
            rule_id: self.rule_id,
            rule_name: self.rule_name@,
        }
    }
}

/// The operations a dry run proposes, in order.
pub struct DryRunPlan {
    pub actions: Vec<DryRunAction>,
}

impl View for DryRunPlan {
    type V = Seq<DryRunActionView>;

    open spec fn view(&self) -> Seq<DryRunActionView> {
        self.actions@.map_values(|a: DryRunAction| a@)
    }
}

impl Default for DryRunPlan {
    fn default() -> (r: Self)
        ensures
            r@ == Seq::<DryRunActionView>::empty(),
    {
        let r = DryRunPlan { actions: Vec::new() };
        assert(r@ =~= Seq::<DryRunActionView>::empty());
        r
    }
}

/// The id that UUID version 5 gives `name` in the URL namespace.
pub uninterp spec fn uuid_v5_url(name: Seq<char>) -> u128;

/// The version number of the UUID whose 128-bit value is `id`: the high
/// half of its seventh byte.
pub open spec fn uuid_version(id: u128) -> u128 {
    (id >> 76u128) & 0xfu128
}

/// The UUID whose 128-bit value is `id` has the RFC 4122 variant: the two
/// high bits of its ninth byte are `10`.
pub open spec fn uuid_rfc4122_variant(id: u128) -> bool {
    (id >> 62u128) & 3u128 == 2
}

/// `uuid::Uuid::new_v5` in `Uuid::NAMESPACE_URL` over the UTF-8 bytes of
/// `path`, as a 128-bit number (`Uuid::as_u128`, big-endian): the named
/// result, which the builder stamps with version 5 and the RFC 4122 variant.
#[verifier::external_body]
fn uuid_v5_url_of(path: &str) -> (r: u128)
    ensures
        r == uuid_v5_url(path@),
        uuid_version(r) == 5,
        uuid_rfc4122_variant(r),
{
    uuid::Uuid::new_v5(&uuid::Uuid::NAMESPACE_URL, path.as_bytes()).as_u128()
}

/// The hexadecimal digit number `k` (0 to 31, most significant first) of
/// the UUID whose 128-bit value is `id`.
pub open spec fn uuid_nibble(id: u128, k: int) -> u128 {
    (id >> ((4 * (31 - k)) as u32)) & 0xfu128
}

/// Which of the 32 hexadecimal digits stands at place `i` of the hyphenated
/// text (the places of the hyphens aside).
pub open spec fn uuid_digit_index(i: int) -> int {
    if i < 8 {
        i
    } else if i < 13 {
        i - 1
    } else if i < 18 {
        i - 2
    } else if i < 23 {
        i - 3
    } else {
        i - 4
    }
}

/// The hyphenated text of the UUID whose 128-bit value is `id`, as uuid's
/// `Display` writes it: its 32 lower-case hexadecimal digits, most
/// significant first, in groups of 8, 4, 4, 4 and 12 joined by `-`.
pub open spec fn uuid_text(id: u128) -> Seq<char> {
    Seq::new(
        36,
        |i: int|
            if i == 8 || i == 13 || i == 18 || i == 23 {
                '-'
            } else {
                hex_digit(uuid_nibble(id, uuid_digit_index(i)) as nat)
            },
    )
}

/// The hyphenated text of the UUID whose 128-bit value is `id`.
pub(crate) fn uuid_string(id: u128) -> (r: String)
    ensures
        r@ == uuid_text(id),
{
    let mut s = String::new();
    let mut i: usize = 0;
    while i < 36
        invariant
            i <= 36,
            s@ == uuid_text(id).take(i as int),
        decreases 36 - i,
    {
        let c = if i == 8 || i == 13 || i == 18 || i == 23 {
            '-'
        } else {
            let k: u32 = if i < 8 {
                i as u32
            } else if i < 13 {
                (i - 1) as u32
            } else if i < 18 {
                (i - 2) as u32
            } else if i < 23 {
                (i - 3) as u32
            } else {
                (i - 4) as u32
            };
            let sh: u32 = 4 * (31 - k);
            let nib: u128 = (id >> sh) & 0xfu128;
            assert(nib < 16) by (bit_vector)
                requires
                    nib == (id >> sh) & 0xfu128,
            ;
            assert(nib == uuid_nibble(id, uuid_digit_index(i as int)));
            hex_digit_char(nib as u8)
        };
        push_char(&mut s, c);
        assert(s@ =~= uuid_text(id).take(i + 1));
        i = i + 1;
    }
    assert(uuid_text(id).take(36) =~= uuid_text(id));
    s
}

impl FileRow {
    /// The stable id of the file at `path`: its name-based UUID in the URL
    /// namespace, a version-5 UUID of the RFC 4122 variant.
    pub fn id_for_path(path: &str) -> (r: u128)
        ensures
            r == uuid_v5_url(path@),
            uuid_version(r) == 5,
            uuid_rfc4122_variant(r),
    {
        uuid_v5_url_of(path)
    }

    /// The row that indexing records for a file: the id of its path, its size
    /// as a signed number of bytes, its modification time, its short hash if
    /// one was computed, and no tags yet.
    pub fn for_file(path: &str, size: u64, mtime: i64, hash_short: Option<String>) -> (r: FileRow)
        ensures
            r.id == uuid_v5_url(path@),
            r.path@ == path@,
            r.size == size as i64,
            r.mtime == mtime,
            r.hash_short == hash_short,
            r.tags_json@ == "[]"@,
    {
        FileRow {
            id: Self::id_for_path(path),
            path: to_owned(path),
            size: #[verifier::truncate] (size as i64),
            mtime,
            hash_short,
            tags_json: to_owned("[]"),
        }
    }
}

/// Two paths that are the same string get the same id.
pub proof fn law_id_for_path_is_stable(a: &str, b: &str)
    requires
        a@ == b@,
    ensures
        uuid_v5_url(a@) == uuid_v5_url(b@),
{
}

} // verus!
