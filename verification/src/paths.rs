//! The parts of a file path that rules look at.

use vstd::prelude::*;
use crate::text::{ends_with, occurs_in, opt_view, split_on, to_owned};

verus! {

/// The index of the last `c` in `s`, or `-1` when there is none.
pub open spec fn last_index_of(s: Seq<char>, c: char) -> int
    decreases s.len(),
{
    if s.len() == 0 {
        -1
    } else if s.last() == c {
        s.len() - 1
    } else {
        last_index_of(s.drop_last(), c)
    }
}

/// The extension of a file name as `Path::extension` documents it: `None`
/// for `..`, for a name without a `.`, and for a name whose only `.` is its
/// first character; otherwise what follows the last `.`.
pub open spec fn name_extension(name: Seq<char>) -> Option<Seq<char>> {
    let k = last_index_of(name, '.');
    if name == seq!['.', '.'] || k <= 0 {
        None
    } else {
        Some(name.subrange(k + 1, name.len() as int))
    }
}

/// The extension of a path whose final component is `file_name`.
pub open spec fn path_extension(file_name: Option<Seq<char>>) -> Option<Seq<char>> {
    match file_name {
        Some(n) => name_extension(n),
        None => None,
    }
}

/// A path that every platform splits the same way: it holds no backslash and
/// no `:`, and does not begin with two slashes (which Windows reads as a
/// network prefix), so `/` is its only separator and it has no prefix.
pub open spec fn portable_path(p: Seq<char>) -> bool {
    &&& forall|i: int| 0 <= i < p.len() ==> #[trigger] p[i] != '\\' && p[i] != ':'
    &&& !(p.len() >= 2 && p[0] == '/' && p[1] == '/')
}

/// The parts of `parts` that are neither empty nor `.`, in order.
pub open spec fn named_parts(parts: Seq<Seq<char>>) -> Seq<Seq<char>>
    decreases parts.len(),
{
    if parts.len() == 0 {
        Seq::empty()
    } else {
        let init = named_parts(parts.drop_last());
        let q = parts.last();
        if q.len() == 0 || q == seq!['.'] {
            init
        } else {
            init.push(q)
        }
    }
}

/// The final component of a portable path, as `Path::file_name` documents
/// it: the last `/`-separated part that is neither empty nor `.`; none when
/// there is no such part (an empty path, the root, `.`) or when it is `..`.
pub open spec fn final_component(p: Seq<char>) -> Option<Seq<char>> {
    let parts = named_parts(split_on(p, '/'));
    if parts.len() == 0 || parts.last() == seq!['.', '.'] {
        None
    } else {
        Some(parts.last())
    }
}

proof fn lemma_split_parts_relative(s: Seq<char>)
    requires
        forall|k: int| 0 <= k < s.len() ==> #[trigger] s[k] != '\\' && s[k] != ':',
    ensures
        forall|i: int| 0 <= i < split_on(s, '/').len() ==> relative_name(#[trigger] split_on(s, '/')[i]),
        split_on(s, '/').len() > 0,
    decreases s.len(),
{
    if s.len() > 0 {
        let init = split_on(s.drop_last(), '/');
        assert forall|k: int| 0 <= k < s.drop_last().len() implies #[trigger] s.drop_last()[k] != '\\' && s.drop_last()[k] != ':' by {
            assert(s.drop_last()[k] == s[k]);
        }
        lemma_split_parts_relative(s.drop_last());
        let parts = split_on(s, '/');
        if s.last() != '/' {
            let q = init.last().push(s.last());
            assert(relative_name(init[init.len() - 1]));
            assert forall|j: int| 0 <= j < q.len() implies #[trigger] q[j] != '/' && q[j] != '\\' && q[j] != ':' by {
                if j < init.last().len() {
                    assert(q[j] == init.last()[j]);
                } else {
                    assert(q[j] == s[s.len() - 1]);
                }
            }
            assert forall|i: int| 0 <= i < parts.len() implies relative_name(#[trigger] parts[i]) by {
                if i < parts.len() - 1 {
                    assert(parts[i] == init[i]);
                } else {
                    assert(parts[i] == q);
                }
            }
        } else {
            assert forall|i: int| 0 <= i < parts.len() implies relative_name(#[trigger] parts[i]) by {
                if i < parts.len() - 1 {
                    assert(parts[i] == init[i]);
                } else {
                    assert(parts[i] =~= Seq::<char>::empty());
                }
            }
        }
    }
}

proof fn lemma_named_parts_relative(parts: Seq<Seq<char>>)
    requires
        forall|i: int| 0 <= i < parts.len() ==> relative_name(#[trigger] parts[i]),
    ensures
        forall|i: int| 0 <= i < named_parts(parts).len() ==> relative_name(#[trigger] named_parts(parts)[i])
            && named_parts(parts)[i].len() > 0,
    decreases parts.len(),
{
    if parts.len() > 0 {
        assert forall|i: int| 0 <= i < parts.drop_last().len() implies relative_name(#[trigger] parts.drop_last()[i]) by {
            assert(parts.drop_last()[i] == parts[i]);
        }
        lemma_named_parts_relative(parts.drop_last());
        let init = named_parts(parts.drop_last());
        let n = named_parts(parts);
        assert(relative_name(parts[parts.len() - 1]));
        assert forall|i: int| 0 <= i < n.len() implies relative_name(#[trigger] n[i]) && n[i].len() > 0 by {
            if i < init.len() {
                assert(n[i] == init[i]);
            }
        }
    }
}

/// The final component of a portable path is a non-empty name of one
/// component: no separator and no `:`.
pub proof fn lemma_final_component_is_a_name(p: Seq<char>)
    requires
        portable_path(p),
    ensures
        final_component(p) matches Some(n) ==> relative_name(n) && n.len() > 0,
{
    lemma_split_parts_relative(p);
    lemma_named_parts_relative(split_on(p, '/'));
    let parts = named_parts(split_on(p, '/'));
    if parts.len() > 0 {
        assert(relative_name(parts[parts.len() - 1]));
    }
}

/// What `Path::file_name` gives for `path`: nothing, or a non-empty part of
/// the path; for a portable path, exactly its final component.
pub open spec fn file_name_of_path(path: Seq<char>, name: Option<Seq<char>>) -> bool {
    &&& name matches Some(n) ==> n.len() > 0 && occurs_in(n, path)
    &&& portable_path(path) ==> name == final_component(path)
}

/// `Path::file_name`: the final component of the path, if there is one. How a
/// path splits into components depends on the platform's separators and
/// prefixes; for a path without backslash, `:` or a leading `//` every
/// platform splits on `/` alone, and the result is the last part that is
/// neither empty nor `.` (none for `..`, the root or an empty path), as the
/// documentation's examples show. Otherwise it is only known to be a
/// non-empty part of the path.
#[verifier::external_body]
pub(crate) fn file_name(path: &str) -> (r: Option<String>)
    ensures
        file_name_of_path(path@, opt_view(r)),
{
    match std::path::Path::new(path).file_name() {
        Some(os) => match os.to_str() {
            Some(s) => Some(s.to_string()),
            None => None,
        },
        None => None,
    }
}

proof fn lemma_last_index_bounds(s: Seq<char>, c: char)
    ensures
        -1 <= last_index_of(s, c) < s.len(),
        last_index_of(s, c) >= 0 ==> s[last_index_of(s, c)] == c,
    decreases s.len(),
{
    if s.len() > 0 && s.last() != c {
        lemma_last_index_bounds(s.drop_last(), c);
    }
}

/// The extension of a file name, as `Path::extension` takes it from the
/// final component of a path.
pub fn extension_of_name(name: &str) -> (r: Option<String>)
    ensures
        r matches Some(e) ==> name_extension(name@) == Some(e@),
        r is None ==> name_extension(name@) is None,
{
    let n = name.unicode_len();
    let mut last: Option<usize> = None;
    let mut i: usize = 0;
    while i < n
        invariant
            n == name@.len(),
            i <= n,
            match last {
                Some(k) => k as int == last_index_of(name@.take(i as int), '.') && k < i,
                None => last_index_of(name@.take(i as int), '.') == -1,
            },
        decreases n - i,
    {
        let c = name.get_char(i);
        assert(name@.take(i + 1).drop_last() =~= name@.take(i as int));
        if c == '.' {
            last = Some(i);
        }
        i = i + 1;
    }
    assert(name@.take(n as int) =~= name@);
    proof {
        lemma_last_index_bounds(name@, '.');
    }
    let dotdot = n == 2 && name.get_char(0) == '.' && name.get_char(1) == '.';
    assert(dotdot <==> name@ == seq!['.', '.']) by {
        if name@ == seq!['.', '.'] {
            assert(name@[0] == '.' && name@[1] == '.');
        }
        if dotdot {
            assert(name@ =~= seq!['.', '.']);
        }
    }
    match last {
        Some(k) => {
            if dotdot || k == 0 {
                None
            } else {
                Some(to_owned(name.substring_char(k + 1, n)))
            }
        },
        None => None,
    }
}

/// The extension of the final component of `path`, given that component.
pub fn extension_of(file_name: &Option<String>) -> (r: Option<String>)
    ensures
        r matches Some(e) ==> path_extension(opt_view(*file_name)) == Some(e@),
        r is None ==> path_extension(opt_view(*file_name)) is None,
{
    match file_name {
        Some(n) => extension_of_name(n.as_str()),
        None => None,
    }
}

/// A relative path of one component: no separator (`/` or a backslash), no
/// drive prefix (`:`), so that joining it to a directory extends the
/// directory on every platform.
pub open spec fn relative_name(s: Seq<char>) -> bool {
    forall|i: int| 0 <= i < s.len() ==> {
        let c = #[trigger] s[i];
        c != '/' && c != '\\' && c != ':'
    }
}

/// `p` begins with the Windows verbatim prefix `\\?\`.
pub open spec fn verbatim_path(p: Seq<char>) -> bool {
    p.len() >= 4 && p[0] == '\\' && p[1] == '\\' && p[2] == '?' && p[3] == '\\'
}

/// `r` is `dir` extended by `name`: the directory, then a separator (`/`
/// or a backslash) or none, then the name. There is no separator after an
/// empty directory or one that ends in `/`, and there is one after a
/// directory that ends in anything but `/`, a backslash or `:` (after
/// those two it depends on the platform).
pub open spec fn joined(dir: Seq<char>, name: Seq<char>, r: Seq<char>) -> bool {
    exists|sep: Seq<char>|
        (sep.len() == 0 || sep == seq!['/'] || sep == seq!['\\']) && r == dir + sep + name
            && ((dir.len() == 0 || dir.last() == '/') ==> sep.len() == 0)
            && ((dir.len() > 0 && dir.last() != '/' && dir.last() != '\\' && dir.last() != ':') ==> sep.len() == 1)
}

/// `Path::join` of a directory and a one-component relative name, as
/// `PathBuf::push` documents it: the directory extended by the name, with the
/// platform's separator between them when needed. A directory with a Windows
/// verbatim prefix is normalised as well (its `.` and `..` parts go), so of
/// it only the end of the result is stated: an ordinary name comes last.
#[verifier::external_body]
pub(crate) fn join_path(dir: &str, name: &str) -> (r: String)
    ensures
        relative_name(name@) && !verbatim_path(dir@) ==> joined(dir@, name@, r@),
        relative_name(name@) && name@ != seq!['.'] && name@ != seq!['.', '.'] ==> ends_with(r@, name@),
{
    std::path::Path::new(dir).join(name).to_string_lossy().into_owned()
}

} // verus!
