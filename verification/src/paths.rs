//! Portable paths.
//!
//! The library hands paths around as text with `/` between components, the
//! form the presentation layer expects. This module defines that form and the
//! few operations the rest of the library needs on it.

use vstd::prelude::*;
use crate::text::{chars_of, text_of, concat2, concat3, owned};

verus! {

/// Whether `s` begins with the extended-length prefix `\\?\`.
pub open spec fn has_long_prefix(s: Seq<char>) -> bool {
    s.len() >= 4 && s[0] == '\\' && s[1] == '\\' && s[2] == '?' && s[3] == '\\'
}

/// `s` without any leading run of extended-length prefixes.
pub open spec fn strip_long_prefixes(s: Seq<char>) -> Seq<char>
    decreases s.len(),
{
    if has_long_prefix(s) {
        strip_long_prefixes(s.skip(4))
    } else {
        s
    }
}

/// `s` with every backslash turned into a forward slash.
pub open spec fn forward_slashes(s: Seq<char>) -> Seq<char> {
    Seq::new(s.len(), |i: int| if s[i] == '\\' { '/' } else { s[i] })
}

/// The portable form of a path: extended-length prefixes stripped, then
/// backslashes replaced by forward slashes.
pub open spec fn normalized(s: Seq<char>) -> Seq<char> {
    forward_slashes(strip_long_prefixes(s))
}

/// Normalizes a path for the presentation layer.
pub fn normalize_path(p: &str) -> (out: String)
    ensures
        out@ == normalized(p@),
{
    let chars = chars_of(p);
    let n = chars.len();
    let mut start: usize = 0;
    assert(chars@.skip(0) =~= chars@);
    while n - start >= 4 && chars[start] == '\\' && chars[start + 1] == '\\' && chars[start + 2]
        == '?' && chars[start + 3] == '\\'
        invariant
            start <= n == chars.len(),
            strip_long_prefixes(chars@) == strip_long_prefixes(chars@.skip(start as int)),
        decreases n - start,
    {
        assert(has_long_prefix(chars@.skip(start as int)));
        assert(chars@.skip(start as int).skip(4) =~= chars@.skip(start + 4));
        start += 4;
    }
    assert(!has_long_prefix(chars@.skip(start as int)));
    let ghost rest = chars@.skip(start as int);
    let mut out = String::new();
    let mut i: usize = start;
    while i < n
        invariant
            start <= i <= n == chars.len(),
            rest == chars@.skip(start as int),
            out@ == forward_slashes(rest).take(i - start),
        decreases n - i,
    {
        let c = chars[i];
        assert(rest[i - start] == c);
        if c == '\\' {
            out.push('/');
        } else {
            out.push(c);
        }
        assert(out@ =~= forward_slashes(rest).take(i + 1 - start));
        i += 1;
    }
    assert(out@ =~= forward_slashes(rest));
    out
}

/// The index of the first `c` in `s`, or the length of `s` if it holds none.
pub open spec fn first_index_of(s: Seq<char>, c: char) -> int
    decreases s.len(),
{
    if s.len() == 0 {
        0
    } else if s[0] == c {
        0
    } else {
        1 + first_index_of(s.skip(1), c)
    }
}

/// The index of the last `c` in `s`, or `-1` if it holds none.
pub open spec fn last_index_of(s: Seq<char>, c: char) -> int
    decreases s.len(),
{
    if s.len() == 0 {
        -1
    } else if s.last() == c {
        s.len() - 1
    } else {
        last_index_of(s.drop_last(), c)
    }
}

/// `first_index_of` is the least position of `c`, or the length.
pub proof fn lemma_first_index_of(s: Seq<char>, c: char)
    ensures
        0 <= first_index_of(s, c) <= s.len(),
        first_index_of(s, c) < s.len() ==> s[first_index_of(s, c)] == c,
        forall|j: int| 0 <= j < first_index_of(s, c) ==> s[j] != c,
    decreases s.len(),
{
    if s.len() > 0 && s[0] != c {
        let t = s.skip(1);
        lemma_first_index_of(t, c);
        assert forall|j: int| 0 <= j < first_index_of(s, c) implies s[j] != c by {
            if j > 0 {
                assert(t[j - 1] == s[j]);
            }
        }
    }
}

/// `last_index_of` is the greatest position of `c`, or `-1`.
pub proof fn lemma_last_index_of(s: Seq<char>, c: char)
    ensures
        -1 <= last_index_of(s, c) < s.len(),
        last_index_of(s, c) >= 0 ==> s[last_index_of(s, c)] == c,
        forall|j: int| last_index_of(s, c) < j < s.len() ==> s[j] != c,
    decreases s.len(),
{
    if s.len() > 0 && s.last() != c {
        let t = s.drop_last();
        lemma_last_index_of(t, c);
        assert forall|j: int| last_index_of(s, c) < j < s.len() implies s[j] != c by {
            if j < s.len() - 1 {
                assert(t[j] == s[j]);
            }
        }
    }
}

/// Finds the first `c` in `chars`.
pub fn first_index(chars: &Vec<char>, c: char) -> (i: usize)
    ensures
        i == first_index_of(chars@, c),
        i <= chars.len(),
        i < chars.len() ==> chars@[i as int] == c,
        forall|j: int| 0 <= j < i ==> chars@[j] != c,
{
    proof {
        lemma_first_index_of(chars@, c);
    }
    let n = chars.len();
    let mut i: usize = 0;
    assert(chars@.skip(0) =~= chars@);
    while i < n && chars[i] != c
        invariant
            i <= n == chars.len(),
            first_index_of(chars@, c) == i + first_index_of(chars@.skip(i as int), c),
        decreases n - i,
    {
        assert(chars@.skip(i as int).skip(1) =~= chars@.skip(i + 1));
        i += 1;
    }
    i
}

/// Finds the last `c` in `chars`.
pub fn last_index(chars: &Vec<char>, c: char) -> (found: Option<usize>)
    ensures
        match found {
            Some(i) => i == last_index_of(chars@, c) && i < chars.len() && chars@[i as int] == c,
            None => last_index_of(chars@, c) == -1,
        },
        forall|j: int| last_index_of(chars@, c) < j < chars.len() ==> chars@[j] != c,
{
    proof {
        lemma_last_index_of(chars@, c);
    }
    let mut i: usize = chars.len();
    assert(chars@.take(i as int) =~= chars@);
    while i > 0 && chars[i - 1] != c
        invariant
            i <= chars.len(),
            last_index_of(chars@, c) == last_index_of(chars@.take(i as int), c),
        decreases i,
    {
        assert(chars@.take(i as int).drop_last() =~= chars@.take(i - 1));
        i -= 1;
    }
    if i == 0 {
        None
    } else {
        Some(i - 1)
    }
}

/// The characters `chars[from..to]`.
pub fn sub_chars(chars: &Vec<char>, from: usize, to: usize) -> (part: Vec<char>)
    requires
        from <= to <= chars.len(),
    ensures
        part@ == chars@.subrange(from as int, to as int),
{
    let mut part: Vec<char> = Vec::new();
    let mut i: usize = from;
    while i < to
        invariant
            from <= i <= to <= chars.len(),
            part@ == chars@.subrange(from as int, i as int),
        decreases to - i,
    {
        part.push(chars[i]);
        i += 1;
    }
    part
}

/// `leaf` placed under the directory `base`. A leaf that starts at the root
/// stands alone, and so does any leaf under the empty base.
pub open spec fn joined(base: Seq<char>, leaf: Seq<char>) -> Seq<char> {
    if leaf.len() > 0 && leaf[0] == '/' {
        leaf
    } else if base.len() == 0 {
        leaf
    } else if base.last() == '/' {
        base + leaf
    } else {
        base + seq!['/'] + leaf
    }
}

/// Joins a directory and a leaf with exactly one separator between them.
pub fn join_path(base: &str, leaf: &str) -> (path: String)
    ensures
        path@ == joined(base@, leaf@),
{
    let b = chars_of(base);
    let l = chars_of(leaf);
    if l.len() > 0 && l[0] == '/' {
        owned(leaf)
    } else if b.len() == 0 {
        owned(leaf)
    } else if b[b.len() - 1] == '/' {
        concat2(base, leaf)
    } else {
        proof {
            reveal_strlit("/");
            assert("/"@ =~= seq!['/']);
        }
        concat3(base, "/", leaf)
    }
}

/// The last component of a path: what follows its last separator.
pub open spec fn file_name(path: Seq<char>) -> Seq<char> {
    path.skip(last_index_of(path, '/') + 1)
}

/// The directory that holds the last component of a path: empty for a bare
/// name, the root for a name directly under the root.
pub open spec fn parent(path: Seq<char>) -> Seq<char> {
    let k = last_index_of(path, '/');
    if k < 0 {
        Seq::empty()
    } else if k == 0 {
        seq!['/']
    } else {
        path.take(k)
    }
}

/// The extension of a path's last component: what follows its last dot,
/// provided that dot is not the component's first character.
pub open spec fn extension(path: Seq<char>) -> Option<Seq<char>> {
    let name = file_name(path);
    let dot = last_index_of(name, '.');
    if dot <= 0 {
        None
    } else {
        Some(name.skip(dot + 1))
    }
}

/// The directory part of a path.
pub fn parent_dir(path: &str) -> (dir: String)
    ensures
        dir@ == parent(path@),
{
    let chars = chars_of(path);
    match last_index(&chars, '/') {
        None => String::new(),
        Some(k) => {
            if k == 0 {
                proof {
                    reveal_strlit("/");
                    assert("/"@ =~= seq!['/']);
                }
                owned("/")
            } else {
                text_of(&chars, 0, k)
            }
        },
    }
}

/// The extension of the path spelled by `chars`, if its last component has
/// one.
pub fn extension_in(chars: &Vec<char>) -> (ext: Option<String>)
    ensures
        match ext {
            Some(e) => extension(chars@) == Some(e@),
            None => extension(chars@) is None,
        },
{
    let start: usize = match last_index(chars, '/') {
        None => 0,
        Some(k) => k + 1,
    };
    let name = sub_chars(chars, start, chars.len());
    assert(name@ =~= file_name(chars@));
    match last_index(&name, '.') {
        None => None,
        Some(dot) => {
            if dot == 0 {
                None
            } else {
                Some(text_of(&name, dot + 1, name.len()))
            }
        },
    }
}

/// The extension of a path, if its last component has one.
pub fn extension_of(path: &str) -> (ext: Option<String>)
    ensures
        match ext {
            Some(e) => extension(path@) == Some(e@),
            None => extension(path@) is None,
        },
{
    let chars = chars_of(path);
    extension_in(&chars)
}

/// A URL without its query and fragment.
pub open spec fn before_query(url: Seq<char>) -> Seq<char> {
    let head = url.take(first_index_of(url, '?'));
    head.take(first_index_of(head, '#'))
}

/// The path component of a URL: for a URL with a scheme and an authority,
/// what follows the authority; for any other text, the text without its
/// query and fragment.
pub open spec fn url_path(url: Seq<char>) -> Seq<char> {
    let u = before_query(url);
    let k = first_index_of(u, '/');
    if 0 < k && k + 1 < u.len() && u[k - 1] == ':' && u[k + 1] == '/' {
        let rest = u.skip(k + 2);
        rest.skip(first_index_of(rest, '/'))
    } else {
        u
    }
}

/// The extension that a URL's path component ends in, if any.
pub fn url_extension(url: &str) -> (ext: Option<String>)
    ensures
        match ext {
            Some(e) => extension(url_path(url@)) == Some(e@),
            None => extension(url_path(url@)) is None,
        },
{
    let chars = chars_of(url);
    let q = first_index(&chars, '?');
    let head = sub_chars(&chars, 0, q);
    let h = first_index(&head, '#');
    let u = sub_chars(&head, 0, h);
    assert(u@ =~= before_query(url@));
    let k = first_index(&u, '/');
    if 0 < k && k < u.len() && u.len() - k > 1 && u[k - 1] == ':' && u[k + 1] == '/' {
        let rest = sub_chars(&u, k + 2, u.len());
        assert(rest@ =~= u@.skip(k + 2));
        let p = first_index(&rest, '/');
        let path = sub_chars(&rest, p, rest.len());
        assert(path@ =~= url_path(url@));
        extension_in(&path)
    } else {
        extension_in(&u)
    }
}

} // verus!
