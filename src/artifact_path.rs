//! Where a freshly built module is moved before it is loaded: a sibling of the
//! artifact whose file stem is a fresh unique identifier and whose extension
//! is that of the artifact.
use vstd::prelude::*;

verus! {

#[verifier::external_type_specification]
#[verifier::external_body]
pub struct ExUuid(uuid::Uuid);

/// The index of the last `x` or `y` in `s`, or -1 where `s` holds neither.
pub open spec fn last_index(s: Seq<char>, x: char, y: char) -> int
    decreases s.len(),
{
    if s.len() == 0 {
        -1
    } else if s.last() == x || s.last() == y {
        s.len() - 1
    } else {
        last_index(s.drop_last(), x, y)
    }
}

/// Where the file name of a path begins: just after its last separator,
/// a slash or a backslash.
pub open spec fn name_start(p: Seq<char>) -> int {
    last_index(p, '/', '\\') + 1
}

/// The directory part of a path, its trailing separator included.
pub open spec fn directory_of(p: Seq<char>) -> Seq<char> {
    p.subrange(0, name_start(p))
}

/// The file name: what follows the last separator.
pub open spec fn file_name_of(p: Seq<char>) -> Seq<char> {
    p.subrange(name_start(p), p.len() as int)
}

/// The extension: what follows the last dot of the file name, where that dot
/// is not the first character of the name; empty otherwise.
pub open spec fn extension_of(p: Seq<char>) -> Seq<char> {
    let name = file_name_of(p);
    let d = last_index(name, '.', '.');
    if d > 0 {
        name.subrange(d + 1, name.len() as int)
    } else {
        Seq::empty()
    }
}

/// The path in the same directory as `p` whose stem is `stem` and whose
/// extension is that of `p` (no dot where `p` has no extension).
pub open spec fn sibling_of(p: Seq<char>, stem: Seq<char>) -> Seq<char> {
    let ext = extension_of(p);
    if ext.len() > 0 {
        directory_of(p) + stem + seq!['.'] + ext
    } else {
        directory_of(p) + stem
    }
}

pub open spec fn is_lower_hex_digit(c: char) -> bool {
    ('0' <= c && c <= '9') || ('a' <= c && c <= 'f')
}

/// The hyphenated text form of a UUID: 32 lowercase hex digits in groups of
/// 8, 4, 4, 4 and 12, joined by hyphens.
pub open spec fn is_hyphenated_form(s: Seq<char>) -> bool {
    &&& s.len() == 36
    &&& forall|i: int|
        0 <= i < 36 ==> if i == 8 || i == 13 || i == 18 || i == 23 {
            #[trigger] s[i] == '-'
        } else {
            is_lower_hex_digit(s[i])
        }
}

/// Relies on `Display for uuid::Uuid`, which writes the lowercase hyphenated
/// form.
#[verifier::external_body]
fn uuid_text(u: &uuid::Uuid) -> (r: String)
    ensures
        is_hyphenated_form(r@),
{
    u.to_string()
}

/// The index of the last `x` or `y` in `s`, if any.
fn find_last(s: &str, x: char, y: char) -> (r: Option<usize>)
    ensures
        match r {
            Some(i) => i < s@.len() && i as int == last_index(s@, x, y),
            None => last_index(s@, x, y) == -1,
        },
{
    let n = s.unicode_len();
    let mut i: usize = n;
    assert(s@.subrange(0, n as int) =~= s@);
    while i > 0
        invariant
            n == s@.len(),
            i <= n,
            last_index(s@, x, y) == last_index(s@.subrange(0, i as int), x, y),
        decreases i,
    {
        let ch = s.get_char(i - 1);
        assert(s@.subrange(0, i as int).last() == s@[i - 1]);
        if ch == x || ch == y {
            return Some(i - 1);
        }
        assert(s@.subrange(0, i as int).drop_last() =~= s@.subrange(0, i - 1));
        i = i - 1;
    }
    assert(s@.subrange(0, 0).len() == 0);
    None
}

/// The extension of `path` (see `extension_of`).
pub fn extension(path: &str) -> (r: &str)
    ensures
        r@ == extension_of(path@),
{
    let n = path.unicode_len();
    let start: usize = match find_last(path, '/', '\\') {
        Some(i) => i + 1,
        None => 0,
    };
    let name = path.substring_char(start, n);
    assert(name@ =~= file_name_of(path@));
    let m = name.unicode_len();
    match find_last(name, '.', '.') {
        Some(d) => {
            if d > 0 {
                name.substring_char(d + 1, m)
            } else {
                name.substring_char(m, m)
            }
        },
        None => name.substring_char(m, m),
    }
}

/// The sibling of `path` with file stem `stem` and the extension of `path`.
pub fn sibling_path(path: &str, stem: &str) -> (r: String)
    ensures
        r@ == sibling_of(path@, stem@),
{
    let n = path.unicode_len();
    let start: usize = match find_last(path, '/', '\\') {
        Some(i) => i + 1,
        None => 0,
    };
    let mut out = String::from_str(path.substring_char(0, start));
    out.append(stem);
    let ext = extension(path);
    if ext.unicode_len() > 0 {
        let dot = ".";
        proof {
            reveal_strlit(".");
        }
        out.append(dot);
        out.append(ext);
    }
    out
}

/// `s` holds neither `x` nor `y`.
pub open spec fn free_of(s: Seq<char>, x: char, y: char) -> bool {
    forall|j: int| 0 <= j < s.len() ==> s[j] != x && s[j] != y
}

/// `last_index` is the index of an `x` or a `y`, and neither follows it.
pub proof fn lemma_last_index(s: Seq<char>, x: char, y: char)
    ensures
        -1 <= last_index(s, x, y) < s.len(),
        last_index(s, x, y) >= 0 ==> (s[last_index(s, x, y)] == x || s[last_index(s, x, y)] == y),
        forall|j: int| last_index(s, x, y) < j < s.len() ==> s[j] != x && s[j] != y,
    decreases s.len(),
{
    if s.len() > 0 && s.last() != x && s.last() != y {
        let t = s.drop_last();
        lemma_last_index(t, x, y);
        assert forall|j: int| last_index(s, x, y) < j < s.len() implies s[j] != x && s[j] != y by {
            if j < t.len() {
                assert(s[j] == t[j]);
            }
        }
    }
}

/// Appending text without an `x` or a `y` does not move the last of them.
pub proof fn lemma_last_index_append_free(a: Seq<char>, b: Seq<char>, x: char, y: char)
    requires
        free_of(b, x, y),
    ensures
        last_index(a + b, x, y) == last_index(a, x, y),
    decreases b.len(),
{
    if b.len() == 0 {
        assert(a + b =~= a);
    } else {
        assert((a + b).drop_last() =~= a + b.drop_last());
        assert((a + b).last() == b.last());
        lemma_last_index_append_free(a, b.drop_last(), x, y);
    }
}

/// The sibling path lies in the directory of the artifact, has the stem as
/// the whole of its file stem, and keeps the artifact's extension, for any
/// stem without separators or dots.
pub proof fn lemma_sibling_shape(p: Seq<char>, stem: Seq<char>)
    requires
        stem.len() > 0,
        free_of(stem, '/', '\\'),
        free_of(stem, '.', '.'),
    ensures
        directory_of(sibling_of(p, stem)) == directory_of(p),
        extension_of(sibling_of(p, stem)) == extension_of(p),
        file_name_of(sibling_of(p, stem)) == (if extension_of(p).len() > 0 {
            stem + seq!['.'] + extension_of(p)
        } else {
            stem
        }),
{
    let ns = name_start(p);
    lemma_last_index(p, '/', '\\');
    let dir = directory_of(p);
    if ns > 0 {
        assert(dir.last() == '/' || dir.last() == '\\');
        assert(last_index(dir, '/', '\\') == ns - 1);
    } else {
        assert(dir.len() == 0);
    }
    let name = file_name_of(p);
    assert(free_of(name, '/', '\\'));
    lemma_last_index(name, '.', '.');
    let d = last_index(name, '.', '.');
    let ext = extension_of(p);
    assert(free_of(ext, '/', '\\'));
    assert(free_of(ext, '.', '.'));
    let tail = if ext.len() > 0 {
        stem + seq!['.'] + ext
    } else {
        stem
    };
    let sib = sibling_of(p, stem);
    assert(sib =~= dir + tail);
    assert(free_of(tail, '/', '\\'));
    lemma_last_index_append_free(dir, tail, '/', '\\');
    assert(name_start(sib) == ns);
    assert(directory_of(sib) =~= dir);
    assert(file_name_of(sib) =~= tail);
    if ext.len() > 0 {
        let a = stem + seq!['.'];
        assert(a.drop_last() =~= stem);
        assert(last_index(a, '.', '.') == stem.len());
        assert(tail =~= a + ext);
        lemma_last_index_append_free(a, ext, '.', '.');
        assert(tail.subrange(stem.len() as int + 1, tail.len() as int) =~= ext);
    } else {
        lemma_last_index_append_free(Seq::empty(), stem, '.', '.');
        assert(Seq::<char>::empty() + stem =~= stem);
    }
}

/// A hyphenated UUID holds neither separators nor dots.
pub proof fn lemma_hyphenated_is_plain(s: Seq<char>)
    requires
        is_hyphenated_form(s),
    ensures
        s.len() > 0,
        free_of(s, '/', '\\'),
        free_of(s, '.', '.'),
{
    assert forall|j: int| 0 <= j < s.len() implies s[j] != '/' && s[j] != '\\' && s[j] != '.' by {
        if j == 8 || j == 13 || j == 18 || j == 23 {
            assert(s[j] == '-');
        } else {
            assert(is_lower_hex_digit(s[j]));
        }
    }
}

/// The identifier `u` in hyphenated form. The caller draws `u` (a random
/// version 4 UUID), so that drawing it stays outside the library.
pub fn fresh_id(u: &uuid::Uuid) -> (r: String)
    ensures
        is_hyphenated_form(r@),
{
    uuid_text(u)
}

/// The private path a new artifact at `path` is moved to: a sibling whose
/// stem is the hyphenated form of `u`.
pub fn private_path(path: &str, u: &uuid::Uuid) -> (r: String)
    ensures
        exists|id: Seq<char>| is_hyphenated_form(id) && r@ == sibling_of(path@, id),
        directory_of(r@) == directory_of(path@),
        extension_of(r@) == extension_of(path@),
{
    let id = fresh_id(u);
    proof {
        lemma_hyphenated_is_plain(id@);
        lemma_sibling_shape(path@, id@);
    }
    sibling_path(path, id.as_str())
}

} // verus!
