use vstd::prelude::*;

verus! {

/// The path that joining `name` onto the directory `dir` gives on a Unix
/// system: an absolute `name` stands alone; otherwise it follows `dir`, with a
/// separator in between unless `dir` is empty or already ends in one.
pub open spec fn joined_path(dir: Seq<char>, name: Seq<char>) -> Seq<char> {
    if name.len() > 0 && name[0] == '/' {
        name
    } else if dir.len() == 0 || dir.last() == '/' {
        dir + name
    } else {
        dir + seq!['/'] + name
    }
}

/// Joins a file name onto a directory, taking the name verbatim.
pub fn join_path(dir: &str, name: &str) -> (r: String)
    ensures
        r@ == joined_path(dir@, name@),
{
    let name_len = name.unicode_len();
    if name_len > 0 && name.get_char(0) == '/' {
        return name.to_owned();
    }
    let dir_len = dir.unicode_len();
    let mut r = dir.to_owned();
    if dir_len > 0 && dir.get_char(dir_len - 1) != '/' {
        let sep = "/";
        proof {
            reveal_strlit("/");
        }
        r.append(sep);
    }
    r.append(name);
    proof {
        if dir_len > 0 && dir@.last() != '/' {
            assert(seq!['/'] =~= "/"@);
        }
    }
    r
}

} // verus!
