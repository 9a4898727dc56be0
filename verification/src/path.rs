//! Paths as text: an entry under a directory, and the file name at a path's
//! end.

use vstd::prelude::*;
use vstd::string::*;

verus! {

/// The path of the entry `name` inside the directory `dir`: the two joined
/// by a slash, as text, with nothing normalized.
pub open spec fn entry_path(dir: Seq<char>, name: Seq<char>) -> Seq<char> {
    dir + "/"@ + name
}

/// Where the file name of `path` begins: behind its last slash, or at its
/// start where it has none.
pub open spec fn name_start(path: Seq<char>) -> int
    decreases path.len(),
{
    if path.len() == 0 {
        0
    } else if path.last() == '/' {
        path.len() as int
    } else {
        name_start(path.drop_last())
    }
}

/// The file name of `path`: what stands behind its last slash, or all of it
/// where it has none.
pub open spec fn file_name_of(path: Seq<char>) -> Seq<char> {
    path.skip(name_start(path))
}

/// The file name starts inside the path, holds no slash, and a slash stands
/// right before it unless it is the whole path.
pub proof fn lemma_file_name(path: Seq<char>)
    ensures
        0 <= name_start(path) <= path.len(),
        !file_name_of(path).contains('/'),
        name_start(path) > 0 ==> path[name_start(path) - 1] == '/',
    decreases path.len(),
{
    let name = file_name_of(path);
    if path.len() > 0 && path.last() != '/' {
        let front = path.drop_last();
        lemma_file_name(front);
        assert forall|i: int| 0 <= i < name.len() implies name[i] != '/' by {
            if i < name.len() - 1 {
                assert(name[i] == file_name_of(front)[i]);
            }
        }
    }
}

/// The file name of an entry's path is the entry's name, where that name
/// holds no slash.
pub proof fn lemma_file_name_of_entry(dir: Seq<char>, name: Seq<char>)
    requires
        !name.contains('/'),
    ensures
        file_name_of(entry_path(dir, name)) == name,
    decreases name.len(),
{
    reveal_strlit("/");
    let path = entry_path(dir, name);
    if name.len() == 0 {
        assert(path.last() == '/');
        assert(file_name_of(path) =~= name);
    } else {
        let front = name.drop_last();
        assert(name[name.len() - 1] == name.last());
        assert(path.last() == name.last());
        assert(path.drop_last() =~= entry_path(dir, front));
        assert forall|i: int| 0 <= i < front.len() implies front[i] != '/' by {
            assert(front[i] == name[i]);
        }
        lemma_file_name_of_entry(dir, front);
        lemma_file_name(path.drop_last());
        assert(file_name_of(path) =~= file_name_of(path.drop_last()).push(path.last()));
        assert(name =~= front.push(name.last()));
    }
}

/// Joins a directory and an entry name into a path.
pub fn join(dir: &str, name: &str) -> (path: String)
    ensures
        path@ == entry_path(dir@, name@),
{
    let mut path = String::from_str(dir);
    path.append("/");
    path.append(name);
    path
}

/// Takes the file name off the end of a path.
pub fn file_name(path: &str) -> (name: String)
    ensures
        name@ == file_name_of(path@),
{
    let len = path.unicode_len();
    let mut start: usize = 0;
    let mut at: usize = 0;
    for c in chars: path.chars()
        invariant
            chars.seq() == path@,
            len == path@.len(),
            at == chars.index(),
            start == name_start(path@.take(at as int)),
    {
        assert(path@.take(at + 1).drop_last() =~= path@.take(at as int));
        at += 1;
        if c == '/' {
            start = at;
        }
    }
    proof {
        assert(path@.take(at as int) =~= path@);
        lemma_file_name(path@);
    }
    String::from_str(path.substring_char(start, len))
}

} // verus!
