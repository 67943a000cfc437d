//! Paths as text whose components are separated by `/`.

use vstd::prelude::*;
use crate::text::{find_last, last_index_of, to_chars};

verus! {

/// Where the final component of `path` begins: just behind its last
/// separator, or at the start where it has none.
pub open spec fn component_start(path: Seq<char>) -> int {
    last_index_of(path, '/') + 1
}

/// The span of `path` that holds its file name: the last component that is
/// neither empty nor `.`; none where that component is `..` or is missing.
pub open spec fn name_span(path: Seq<char>) -> Option<(int, int)>
    decreases path.len(),
{
    if path.len() == 0 {
        None
    } else {
        let cut = component_start(path);
        let last = path.skip(cut);
        if last.len() == 0 || last == seq!['.'] {
            if 0 < cut <= path.len() {
                name_span(path.take(cut - 1))
            } else {
                None
            }
        } else if last == seq!['.', '.'] {
            None
        } else {
            Some((cut, path.len() as int))
        }
    }
}

/// The file name of `path`.
pub open spec fn file_name(path: Seq<char>) -> Option<Seq<char>> {
    match name_span(path) {
        Some((from, to)) => Some(path.subrange(from, to)),
        None => None,
    }
}

/// The extension of a file name: what follows its last dot, unless the name
/// holds no dot or only a leading one.
pub open spec fn extension(name: Seq<char>) -> Option<Seq<char>> {
    let dot = last_index_of(name, '.');
    if dot <= 0 {
        None
    } else {
        Some(name.skip(dot + 1))
    }
}

/// The stem of a file name: what precedes its last dot, or the whole name
/// where it has no extension.
pub open spec fn stem(name: Seq<char>) -> Seq<char> {
    let dot = last_index_of(name, '.');
    if dot <= 0 {
        name
    } else {
        name.take(dot)
    }
}

/// `child` below `base`: an absolute `child` stands alone, and a separator is
/// put between the two unless `base` is empty or already ends in one.
pub open spec fn join(base: Seq<char>, child: Seq<char>) -> Seq<char> {
    if child.len() > 0 && child[0] == '/' {
        child
    } else if base.len() == 0 || base.last() == '/' {
        base + child
    } else {
        base + seq!['/'] + child
    }
}

/// `last_index_of` answers a position of the text, or -1.
pub proof fn lemma_last_index_bounds(s: Seq<char>, c: char)
    ensures
        -1 <= last_index_of(s, c) < s.len(),
        last_index_of(s, c) >= 0 ==> s[last_index_of(s, c)] == c,
        forall|j: int| last_index_of(s, c) < j < s.len() ==> s[j] != c,
    decreases s.len(),
{
    if s.len() > 0 && s.last() != c {
        let front = s.drop_last();
        lemma_last_index_bounds(front, c);
        assert forall|j: int| last_index_of(s, c) < j < s.len() implies s[j] != c by {
            if j < front.len() {
                assert(front[j] == s[j]);
            }
        }
    }
}

/// The span of the file name among the characters of a path.
pub(crate) fn name_bounds(chars: &Vec<char>) -> (span: Option<(usize, usize)>)
    ensures
        match span {
            Some((from, to)) => name_span(chars@) == Some((from as int, to as int)) && from < to
                <= chars.len(),
            None => name_span(chars@) is None,
        },
{
    let mut end: usize = chars.len();
    assert(chars@.take(end as int) =~= chars@);
    loop
        invariant
            end <= chars.len(),
            name_span(chars@) == name_span(chars@.take(end as int)),
        decreases end,
    {
        let ghost prefix = chars@.take(end as int);
        if end == 0 {
            return None;
        }
        let start: usize = match find_last(chars, end, '/') {
            Some(i) => i + 1,
            None => 0,
        };
        proof {
            lemma_last_index_bounds(prefix, '/');
            assert(start as int == component_start(prefix));
        }
        let length: usize = end - start;
        let ghost last = prefix.skip(start as int);
        assert(last.len() == length);
        if length == 0 || (length == 1 && chars[start] == '.') {
            assert(last.len() == 0 || last =~= seq!['.']);
            if start == 0 {
                return None;
            }
            assert(prefix.take(start as int - 1) =~= chars@.take(start as int - 1));
            end = start - 1;
        } else if length == 2 && chars[start] == '.' && chars[start + 1] == '.' {
            assert(last =~= seq!['.', '.']);
            assert(last.len() != 0 && last != seq!['.']);
            return None;
        } else {
            assert(last != seq!['.']) by {
                if last == seq!['.'] {
                    assert(last.len() == 1);
                    assert(last[0] == '.');
                }
            }
            assert(last != seq!['.', '.']) by {
                if last == seq!['.', '.'] {
                    assert(last.len() == 2);
                    assert(last[0] == '.');
                    assert(last[1] == '.');
                }
            }
            return Some((start, end));
        }
    }
}

/// The file name of `path`: its last component that is neither empty nor `.`,
/// unless that component is `..`.
pub fn file_name_of(path: &str) -> (name: Option<String>)
    ensures
        match name {
            Some(text) => file_name(path@) == Some(text@),
            None => file_name(path@) is None,
        },
{
    let chars = to_chars(path);
    match name_bounds(&chars) {
        Some((from, to)) => {
            let slice = path.substring_char(from, to);
            Some(String::from_str(slice))
        },
        None => None,
    }
}

/// The extension of the file name `name`.
pub fn extension_of(name: &str) -> (ext: Option<String>)
    ensures
        match ext {
            Some(text) => extension(name@) == Some(text@),
            None => extension(name@) is None,
        },
{
    let chars = to_chars(name);
    let length: usize = chars.len();
    assert(chars@.take(length as int) =~= chars@);
    match find_last(&chars, length, '.') {
        Some(dot) => {
            if dot == 0 {
                None
            } else {
                let slice = name.substring_char(dot + 1, length);
                Some(String::from_str(slice))
            }
        },
        None => None,
    }
}

/// The stem of the file name `name`.
pub fn stem_of(name: &str) -> (text: String)
    ensures
        text@ == stem(name@),
{
    let chars = to_chars(name);
    let length: usize = chars.len();
    assert(chars@.take(length as int) =~= chars@);
    match find_last(&chars, length, '.') {
        Some(dot) => {
            if dot == 0 {
                String::from_str(name)
            } else {
                let slice = name.substring_char(0, dot);
                String::from_str(slice)
            }
        },
        None => String::from_str(name),
    }
}

/// `child` below `base`.
pub fn join_paths(base: &str, child: &str) -> (joined: String)
    ensures
        joined@ == join(base@, child@),
{
    let head = to_chars(child);
    if head.len() > 0 && head[0] == '/' {
        return String::from_str(child);
    }
    let tail = to_chars(base);
    let mut joined = String::from_str(base);
    if tail.len() > 0 && tail[tail.len() - 1] != '/' {
        proof {
            reveal_strlit("/");
        }
        joined.append("/");
        assert("/"@ =~= seq!['/']);
    }
    joined.append(child);
    joined
}

} // verus!
