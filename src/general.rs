//! General helpers on file names.

use vstd::prelude::*;

verus! {

/// `i` is the position of the last `.` in `name`.
pub open spec fn is_last_dot(name: Seq<char>, i: int) -> bool {
    &&& 0 <= i < name.len()
    &&& name[i] == '.'
    &&& forall|j: int| i < j < name.len() ==> name[j] != '.'
}

/// The extension of a file name: what follows its last `.`, provided that
/// this `.` is neither the first nor the last character.
pub open spec fn file_extension_of(name: Seq<char>) -> Option<Seq<char>> {
    if exists|i: int| is_last_dot(name, i) {
        let i = choose|i: int| is_last_dot(name, i);
        if i == 0 || i == name.len() - 1 {
            None
        } else {
            Some(name.subrange(i + 1, name.len() as int))
        }
    } else {
        None
    }
}

/// Maps an optional string to its view.
pub open spec fn opt_view(o: Option<String>) -> Option<Seq<char>> {
    match o {
        Some(s) => Some(s@),
        None => None,
    }
}

proof fn lemma_last_dot_unique(name: Seq<char>, i: int, k: int)
    requires
        is_last_dot(name, i),
        is_last_dot(name, k),
    ensures
        i == k,
{
}

/// Returns the file extension of a file name.
pub fn get_file_extension(file_name: &str) -> (r: Option<String>)
    ensures
        opt_view(r) == file_extension_of(file_name@),
{
    let len = file_name.unicode_len();
    let mut i: usize = len;
    while i > 0
        invariant
            i <= len,
            len == file_name@.len(),
            forall|j: int| i <= j < len ==> file_name@[j] != '.',
        decreases i,
    {
        if file_name.get_char(i - 1) == '.' {
            let pos: usize = i - 1;
            assert(is_last_dot(file_name@, pos as int));
            proof {
                let c = choose|k: int| is_last_dot(file_name@, k);
                lemma_last_dot_unique(file_name@, pos as int, c);
            }
            if pos == len - 1 || pos == 0 {
                return None;
            } else {
                return Some(file_name.substring_char(pos + 1, len).to_owned());
            }
        }
        i = i - 1;
    }
    assert(!exists|k: int| is_last_dot(file_name@, k));
    None
}

/// A path with `part` appended, as a Unix path is joined: an absolute `part`
/// replaces the path, and a separator is put between the two unless the
/// path is empty or already ends in one.
pub open spec fn path_join(base: Seq<char>, part: Seq<char>) -> Seq<char> {
    if part.len() > 0 && part[0] == '/' {
        part
    } else if base.len() == 0 || base.last() == '/' {
        base + part
    } else {
        base + seq!['/'] + part
    }
}

/// Joins `part` onto the path `base`.
pub fn join_path(base: &str, part: &str) -> (r: String)
    ensures
        r@ == path_join(base@, part@),
{
    let part_len = part.unicode_len();
    if part_len > 0 && part.get_char(0) == '/' {
        return part.to_owned();
    }
    let base_len = base.unicode_len();
    let mut out = base.to_owned();
    if !(base_len == 0 || base.get_char(base_len - 1) == '/') {
        proof {
            reveal_strlit("/");
        }
        out.append("/");
    }
    out.append(part);
    out
}

} // verus!
