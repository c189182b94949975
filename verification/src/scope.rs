//! Where a repository's state lives: a directory under the home directory,
//! named after the repository's directory and a short hash of its path.
//!
//! Paths are handled as text with `/` as the separator. Resolving a path to
//! its canonical form reads the file system, so callers pass the canonical
//! path in.
use crate::names::{to_lowercase, unicode_lowercase};
use crate::numbers::{encode, hex_lower};
use crate::outside::{home_dir, is_alphanumeric, sha256_digest, sha256_of, unicode_alphanumeric};
use crate::text::{all_ascii, ascii_lower_seq, chars_of, owned, string_of};
use vstd::prelude::*;
use vstd::utf8::encode_utf8;

verus! {

/// Whether a character stays as it is in an identifier: a letter or digit
/// (in Unicode's sense), `-` or `_`.
pub open spec fn kept_in_identifier(c: char) -> bool {
    unicode_alphanumeric(c) || c == '-' || c == '_'
}

/// Every character that is not kept becomes `-`.
pub open spec fn dashed(s: Seq<char>) -> Seq<char> {
    s.map_values(|c: char|
        if kept_in_identifier(c) {
            c
        } else {
            '-'
        })
}

/// The identifier made of a name: unkept characters become `-`, then the
/// whole is lowercased.
pub open spec fn sanitized(s: Seq<char>) -> Seq<char> {
    unicode_lowercase(dashed(s))
}

/// Turns a directory name into an identifier.
pub fn sanitize_identifier(s: &str) -> (r: String)
    ensures
        r@ == sanitized(s@),
        all_ascii(s@) ==> r@ == ascii_lower_seq(dashed(s@)),
{
    let v = chars_of(s);
    let mut out: Vec<char> = Vec::new();
    let mut i: usize = 0;
    while i < v.len()
        invariant
            i <= v.len(),
            v@ == s@,
            out@ == dashed(s@).take(i as int),
        decreases v.len() - i,
    {
        let c = v[i];
        let keep = is_alphanumeric(c) || c == '-' || c == '_';
        if keep {
            out.push(c);
        } else {
            out.push('-');
        }
        assert(out@ =~= dashed(s@).take(i + 1));
        i = i + 1;
    }
    assert(out@ =~= dashed(s@));
    let d = string_of(&out);
    proof {
        if all_ascii(s@) {
            assert(all_ascii(dashed(s@)));
        }
    }
    to_lowercase(d.as_str())
}

/// Twelve lowercase hex digits: the first six bytes of the SHA-256 digest
/// of `s`.
pub open spec fn short_hash_of(s: Seq<char>) -> Seq<char> {
    hex_lower(sha256_of(s).take(6))
}

/// The first six bytes of the SHA-256 digest of `input`, in hex.
pub fn short_hash(input: &str) -> (r: String)
    ensures
        r@ == short_hash_of(input@),
        r@.len() == 12,
{
    let mut digest = sha256_digest(input);
    digest.truncate(6);
    assert(digest@ =~= sha256_of(input@).take(6));
    let r = encode(digest.as_slice());
    proof {
        lemma_hex_lower_len(digest@);
    }
    r
}

/// Hex takes two digits per byte.
pub proof fn lemma_hex_lower_len(bs: Seq<u8>)
    ensures
        hex_lower(bs).len() == 2 * bs.len(),
    decreases bs.len(),
{
    if bs.len() > 0 {
        lemma_hex_lower_len(bs.drop_last());
    }
}

/// Where the last segment of `s` starts: just after its last `/`, or at 0.
pub open spec fn segment_start(s: Seq<char>) -> int
    decreases s.len(),
{
    if s.len() == 0 {
        0
    } else if s.last() == '/' {
        s.len() as int
    } else {
        segment_start(s.drop_last())
    }
}

pub proof fn lemma_segment_start(s: Seq<char>)
    ensures
        0 <= segment_start(s) <= s.len(),
        segment_start(s) > 0 ==> s[segment_start(s) - 1] == '/',
        forall|k: int| segment_start(s) <= k < s.len() ==> s[k] != '/',
    decreases s.len(),
{
    if s.len() > 0 && s.last() != '/' {
        let t = s.drop_last();
        lemma_segment_start(t);
        assert forall|k: int| segment_start(s) <= k < s.len() implies s[k] != '/' by {
            if k < t.len() {
                assert(t[k] == s[k]);
            }
        }
    }
}

/// Whether a segment is empty or `.`: such segments name no component.
pub open spec fn is_skipped_segment(seg: Seq<char>) -> bool {
    seg.len() == 0 || (seg.len() == 1 && seg[0] == '.')
}

/// Whether a segment is `..`.
pub open spec fn is_parent_segment(seg: Seq<char>) -> bool {
    seg.len() == 2 && seg[0] == '.' && seg[1] == '.'
}

/// The final component of a path, as `Path::file_name` gives it on Unix:
/// empty and `.` segments are passed over, and a path that ends in `..`,
/// or has no other component, has none.
pub open spec fn file_name_of(s: Seq<char>) -> Option<Seq<char>>
    decreases s.len(),
{
    let i = segment_start(s);
    let seg = s.subrange(i, s.len() as int);
    if is_skipped_segment(seg) {
        if i <= 0 {
            None
        } else {
            proof {
                lemma_segment_start(s);
            }
            file_name_of(s.subrange(0, i - 1))
        }
    } else if is_parent_segment(seg) {
        None
    } else {
        Some(seg)
    }
}

/// The final component of `path`.
pub fn file_name(path: &str) -> (r: Option<String>)
    ensures
        r.is_some() == file_name_of(path@).is_some(),
        r matches Some(x) ==> file_name_of(path@) == Some(x@),
{
    let v = chars_of(path);
    let mut n: usize = v.len();
    assert(v@.subrange(0, n as int) =~= path@);
    loop
        invariant
            n <= v.len(),
            v@ == path@,
            file_name_of(v@.subrange(0, n as int)) == file_name_of(path@),
        decreases n,
    {
        let ghost pre = v@.subrange(0, n as int);
        let mut i: usize = n;
        while i > 0 && v[i - 1] != '/'
            invariant
                i <= n,
                n <= v.len(),
                pre == v@.subrange(0, n as int),
                segment_start(v@.subrange(0, i as int)) == segment_start(pre),
            decreases i,
        {
            assert(v@.subrange(0, i as int).drop_last() =~= v@.subrange(0, i - 1));
            i = i - 1;
        }
        assert(segment_start(pre) == i);
        assert(pre.subrange(i as int, n as int) =~= v@.subrange(i as int, n as int));
        let len = n - i;
        let skipped = len == 0 || (len == 1 && v[i] == '.');
        let parent = len == 2 && v[i] == '.' && v[i + 1] == '.';
        if skipped {
            if i == 0 {
                return None;
            }
            assert(pre.subrange(0, i - 1) =~= v@.subrange(0, i - 1));
            n = i - 1;
        } else if parent {
            return None;
        } else {
            let mut seg: Vec<char> = Vec::new();
            let mut k: usize = i;
            while k < n
                invariant
                    i <= k <= n,
                    n <= v.len(),
                    seg@ == v@.subrange(i as int, k as int),
                decreases n - k,
            {
                seg.push(v[k]);
                assert(seg@ =~= v@.subrange(i as int, k + 1));
                k = k + 1;
            }
            return Some(string_of(&seg));
        }
    }
}

/// The bytes of `/`.
pub open spec fn slash() -> u8 {
    47u8
}

/// `base` with `child` appended, as bytes of Unix paths, the way
/// `PathBuf::push` does on Unix: an absolute child replaces the base, and a
/// `/` goes between them unless the base is empty or already ends in one.
pub open spec fn joined(base: Seq<u8>, child: Seq<u8>) -> Seq<u8> {
    if child.len() > 0 && child[0] == slash() {
        child
    } else if base.len() == 0 || base.last() == slash() {
        base + child
    } else {
        base + seq![slash()] + child
    }
}

/// Appends the path `child` to the path `base` (both as bytes).
pub fn join_path(base: &[u8], child: &[u8]) -> (r: Vec<u8>)
    ensures
        r@ == joined(base@, child@),
{
    let mut out: Vec<u8> = Vec::new();
    if child.len() > 0 && child[0] == 47u8 {
        let mut k: usize = 0;
        while k < child.len()
            invariant
                k <= child.len(),
                out@ == child@.take(k as int),
            decreases child.len() - k,
        {
            out.push(child[k]);
            assert(out@ =~= child@.take(k + 1));
            k = k + 1;
        }
        assert(child@.take(child@.len() as int) =~= child@);
        return out;
    }
    let mut j: usize = 0;
    while j < base.len()
        invariant
            j <= base.len(),
            out@ == base@.take(j as int),
        decreases base.len() - j,
    {
        out.push(base[j]);
        assert(out@ =~= base@.take(j + 1));
        j = j + 1;
    }
    assert(base@.take(base@.len() as int) =~= base@);
    if base.len() > 0 && base[base.len() - 1] != 47u8 {
        out.push(47u8);
    }
    let ghost start = out@;
    let mut k: usize = 0;
    while k < child.len()
        invariant
            k <= child.len(),
            out@ == start + child@.take(k as int),
        decreases child.len() - k,
    {
        out.push(child[k]);
        assert(out@ =~= start + child@.take(k + 1));
        k = k + 1;
    }
    assert(child@.take(child@.len() as int) =~= child@);
    assert(out@ =~= joined(base@, child@));
    out
}

/// The name of the directory under the home directory that holds all state.
pub open spec fn state_dir_name() -> Seq<char> {
    seq!['.', 'a', 'o', '-', 'p', 'r', 'o', 'j', 'e', 'c', 't', 's']
}

/// The state root for a given home directory (as the bytes of its path), or
/// for `.` when there is none.
pub open spec fn state_root_for(home: Option<Seq<u8>>) -> Seq<u8> {
    match home {
        Some(h) => joined(h, encode_utf8(state_dir_name())),
        None => joined(encode_utf8(seq!['.']), encode_utf8(state_dir_name())),
    }
}

/// The bytes of an optional byte string.
pub open spec fn opt_bytes(o: Option<Vec<u8>>) -> Option<Seq<u8>> {
    match o {
        Some(t) => Some(t@),
        None => None,
    }
}

/// The state root under the home directory `home` (`.` when there is none).
pub fn state_root_in(home: Option<Vec<u8>>) -> (r: Vec<u8>)
    ensures
        r@ == state_root_for(opt_bytes(home)),
{
    proof {
        reveal_strlit(".");
        reveal_strlit(".ao-projects");
    }
    assert(".ao-projects"@ =~= state_dir_name());
    assert("."@ =~= seq!['.']);
    match home {
        Some(h) => join_path(h.as_slice(), ".ao-projects".as_bytes()),
        None => join_path(".".as_bytes(), ".ao-projects".as_bytes()),
    }
}

/// `.ao-projects` under the user's home directory, or under `.` when the
/// home directory is unknown; as the bytes of the path.
pub fn state_root_dir() -> (r: Vec<u8>)
    ensures
        exists|home: Option<Seq<u8>>| r@ == state_root_for(home),
{
    let home = home_dir();
    let ghost h = opt_bytes(home);
    let r = state_root_in(home);
    assert(r@ == state_root_for(h));
    r
}

/// The scope of a repository whose canonical path is `p`: its sanitized
/// directory name (`unknown` when the path has none), a `-`, and a short
/// hash of the whole path.
pub open spec fn repository_scope_of(p: Seq<char>) -> Seq<char> {
    let name = match file_name_of(p) {
        Some(n) => n,
        None => seq!['u', 'n', 'k', 'n', 'o', 'w', 'n'],
    };
    sanitized(name) + seq!['-'] + short_hash_of(p)
}

/// The scope of the repository at the canonical path `canonical_root`.
pub fn repository_scope(canonical_root: &str) -> (r: String)
    ensures
        r@ == repository_scope_of(canonical_root@),
{
    let name = match file_name(canonical_root) {
        Some(n) => n,
        None => {
            proof {
                reveal_strlit("unknown");
            }
            assert("unknown"@ =~= seq!['u', 'n', 'k', 'n', 'o', 'w', 'n']);
            owned("unknown")
        },
    };
    let sanitized_name = sanitize_identifier(name.as_str());
    let hash = short_hash(canonical_root);
    let mut v = chars_of(sanitized_name.as_str());
    v.push('-');
    let h = chars_of(hash.as_str());
    let mut k: usize = 0;
    let ghost start = v@;
    while k < h.len()
        invariant
            k <= h.len(),
            v@ == start + h@.take(k as int),
        decreases h.len() - k,
    {
        v.push(h[k]);
        assert(v@ =~= start + h@.take(k + 1));
        k = k + 1;
    }
    assert(h@.take(h.len() as int) =~= h@);
    assert(v@ =~= repository_scope_of(canonical_root@));
    string_of(&v)
}

/// The state directory of the repository at the canonical path
/// `canonical_root`: its scope under the state root, as the bytes of the path.
pub fn scoped_state_root(canonical_root: &str) -> (r: Vec<u8>)
    ensures
        exists|home: Option<Seq<u8>>|
            r@ == joined(state_root_for(home), encode_utf8(repository_scope_of(canonical_root@))),
{
    let root = state_root_dir();
    let scope = repository_scope(canonical_root);
    join_path(root.as_slice(), scope.as_str().as_bytes())
}

} // verus!
