//! Parts of `/`-separated paths: the file name, its stem and its extension,
//! as a path's components show them (empty and `.` components skipped, a
//! final `..` naming no file).

use vstd::prelude::*;

verus! {

/// A component worth keeping: not empty and not `.`.
pub open spec fn settle(last: Option<Seq<char>>, seg: Seq<char>) -> Option<Seq<char>> {
    if seg.len() > 0 && seg != seq!['.'] {
        Some(seg)
    } else {
        last
    }
}

/// Scanning a path from the left: the last component kept so far and the
/// component being read.
pub open spec fn scan(p: Seq<char>) -> (Option<Seq<char>>, Seq<char>)
    decreases p.len(),
{
    if p.len() == 0 {
        (None, Seq::empty())
    } else {
        let (last, cur) = scan(p.drop_last());
        if p.last() == '/' {
            (settle(last, cur), Seq::empty())
        } else {
            (last, cur.push(p.last()))
        }
    }
}

/// The last component of a path that is neither empty nor `.`.
pub open spec fn final_component(p: Seq<char>) -> Option<Seq<char>> {
    settle(scan(p).0, scan(p).1)
}

/// The file name of a path: its last component, unless that is `..`.
pub open spec fn file_name_of(p: Seq<char>) -> Option<Seq<char>> {
    match final_component(p) {
        Some(s) => if s == seq!['.', '.'] {
            None
        } else {
            Some(s)
        },
        None => None,
    }
}

/// The position of the last `.` in a name, if any.
pub open spec fn last_dot(f: Seq<char>) -> Option<int>
    decreases f.len(),
{
    if f.len() == 0 {
        None
    } else if f.last() == '.' {
        Some(f.len() - 1)
    } else {
        last_dot(f.drop_last())
    }
}

/// The extension of a file name: what follows its last `.`, where that
/// `.` is not the first character.
pub open spec fn name_extension(f: Seq<char>) -> Option<Seq<char>> {
    match last_dot(f) {
        Some(i) => if i > 0 {
            Some(f.subrange(i + 1, f.len() as int))
        } else {
            None
        },
        None => None,
    }
}

/// The stem of a file name: what precedes its last `.`, where that `.`
/// is not the first character; else the whole name.
pub open spec fn name_stem(f: Seq<char>) -> Seq<char> {
    match last_dot(f) {
        Some(i) => if i > 0 {
            f.subrange(0, i)
        } else {
            f
        },
        None => f,
    }
}

/// The extension of a path's file name.
pub open spec fn extension_of(p: Seq<char>) -> Option<Seq<char>> {
    match file_name_of(p) {
        Some(f) => name_extension(f),
        None => None,
    }
}

/// The stem of a path's file name.
pub open spec fn file_stem_of(p: Seq<char>) -> Option<Seq<char>> {
    match file_name_of(p) {
        Some(f) => Some(name_stem(f)),
        None => None,
    }
}

/// The file name of a path.
pub fn file_name(path: &str) -> (r: Option<String>)
    ensures
        match file_name_of(path@) {
            Some(f) => r matches Some(s) && s@ == f,
            None => r is None,
        },
{
    let n = path.unicode_len();
    let mut last: Option<(usize, usize)> = None;
    let mut start: usize = 0;
    let mut i: usize = 0;
    while i < n
        invariant
            n == path@.len(),
            start <= i <= n,
            scan(path@.take(i as int)).1 == path@.subrange(start as int, i as int),
            scan(path@.take(i as int)).0 == match last {
                Some((a, b)) => Some(path@.subrange(a as int, b as int)),
                None => None,
            },
            last matches Some((a, b)) ==> a <= b <= n,
        decreases n - i,
    {
        assert(path@.take(i + 1).drop_last() =~= path@.take(i as int));
        assert(path@.take(i + 1).last() == path@[i as int]);
        let c = path.get_char(i);
        if c == '/' {
            let len = i - start;
            let is_dot = len == 1 && path.get_char(start) == '.';
            proof {
                let seg = path@.subrange(start as int, i as int);
                if len == 1 && seg[0] == '.' {
                    assert(seg =~= seq!['.']);
                }
            }
            if len > 0 && !is_dot {
                last = Some((start, i));
            }
            start = i + 1;
        } else {
            assert(path@.subrange(start as int, i + 1) =~= path@.subrange(start as int, i as int).push(c));
        }
        i = i + 1;
    }
    assert(path@.take(n as int) =~= path@);
    let len = n - start;
    let is_dot = len == 1 && path.get_char(start) == '.';
    proof {
        let seg = path@.subrange(start as int, n as int);
        if len == 1 && seg[0] == '.' {
            assert(seg =~= seq!['.']);
        }
    }
    let fin: Option<(usize, usize)> = if len > 0 && !is_dot {
        Some((start, n))
    } else {
        last
    };
    match fin {
        None => None,
        Some((a, b)) => {
            let s = path.substring_char(a, b);
            let dotdot = b - a == 2 && s.get_char(0) == '.' && s.get_char(1) == '.';
            proof {
                if b - a == 2 && s@[0] == '.' && s@[1] == '.' {
                    assert(s@ =~= seq!['.', '.']);
                }
            }
            if dotdot {
                None
            } else {
                Some(s.to_owned())
            }
        },
    }
}

/// The last `.` of a name lies within it.
proof fn lemma_last_dot_range(f: Seq<char>)
    ensures
        last_dot(f) matches Some(i) ==> 0 <= i < f.len() && f[i] == '.',
    decreases f.len(),
{
    if f.len() > 0 && f.last() != '.' {
        lemma_last_dot_range(f.drop_last());
    }
}

/// The position of the last `.` in a name.
fn find_last_dot(f: &str) -> (r: Option<usize>)
    ensures
        match last_dot(f@) {
            Some(i) => r == Some(i as usize),
            None => r is None,
        },
        r matches Some(i) ==> i < f@.len() && last_dot(f@) == Some(i as int),
{
    let n = f.unicode_len();
    let mut i: usize = n;
    assert(f@.take(n as int) =~= f@);
    proof {
        lemma_last_dot_range(f@);
    }
    while i > 0
        invariant
            n == f@.len(),
            i <= n,
            last_dot(f@) == last_dot(f@.take(i as int)),
        decreases i,
    {
        assert(f@.take(i as int).drop_last() =~= f@.take(i - 1));
        if f.get_char(i - 1) == '.' {
            return Some(i - 1);
        }
        i = i - 1;
    }
    None
}

/// The extension of a path's file name.
pub fn extension(path: &str) -> (r: Option<String>)
    ensures
        match extension_of(path@) {
            Some(e) => r matches Some(s) && s@ == e,
            None => r is None,
        },
{
    match file_name(path) {
        None => None,
        Some(f) => match find_last_dot(f.as_str()) {
            Some(i) => {
                if i > 0 {
                    let n = f.as_str().unicode_len();
                    Some(f.as_str().substring_char(i + 1, n).to_owned())
                } else {
                    None
                }
            },
            None => None,
        },
    }
}

/// The stem of a path's file name.
pub fn file_stem(path: &str) -> (r: Option<String>)
    ensures
        match file_stem_of(path@) {
            Some(e) => r matches Some(s) && s@ == e,
            None => r is None,
        },
{
    match file_name(path) {
        None => None,
        Some(f) => match find_last_dot(f.as_str()) {
            Some(i) => {
                if i > 0 {
                    Some(f.as_str().substring_char(0, i).to_owned())
                } else {
                    Some(f)
                }
            },
            None => Some(f),
        },
    }
}

} // verus!
