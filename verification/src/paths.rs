use vstd::prelude::*;

verus! {

/// Length of the parent-directory prefix of a path: the index of the last
/// `'/'` in the path, or `0` when the path holds no `'/'` at all.
pub open spec fn parent_len(s: Seq<char>) -> nat
    decreases s.len(),
{
    if s.len() == 0 {
        0
    } else if s.last() == '/' {
        (s.len() - 1) as nat
    } else {
        parent_len(s.drop_last())
    }
}

/// The parent directory of a path: everything before the last `'/'`, or the
/// empty sequence when the path holds no `'/'` (the file then lives in the
/// current directory and no directory has to be created for it).
pub open spec fn parent_dir_spec(s: Seq<char>) -> Seq<char> {
    s.take(parent_len(s) as int)
}

/// Computes the parent directory of a cache path: the prefix before the last
/// `'/'`, empty when the path holds none.
pub fn parent_dir(path: &str) -> (r: String)
    ensures
        r@ == parent_dir_spec(path@),
{
    let len: usize = path.unicode_len();
    let mut cut: usize = 0;
    let mut i: usize = 0;
    while i < len
        invariant
            i <= len,
            len == path@.len(),
            cut <= i,
            cut == parent_len(path@.take(i as int)),
        decreases len - i,
    {
        let c = path.get_char(i);
        proof {
            let t = path@.take(i as int + 1);
            assert(t.drop_last() =~= path@.take(i as int));
            assert(t.last() == path@[i as int]);
        }
        if c == '/' {
            cut = i;
        }
        i = i + 1;
    }
    proof {
        assert(path@.take(len as int) =~= path@);
    }
    let r = path.substring_char(0, cut).to_owned();
    proof {
        assert(path@.subrange(0, cut as int) =~= parent_dir_spec(path@));
    }
    r
}

} // verus!
