//! Relative paths as the registry stores them: a vector of name
//! components, each an uninterpreted byte string. The empty vector is the
//! source root itself.

use vstd::prelude::*;

verus! {

/// Copy one name component.
pub fn clone_bytes(src: &Vec<u8>) -> (r: Vec<u8>)
    ensures
        r@ == src@,
{
    let mut r: Vec<u8> = Vec::new();
    let mut i: usize = 0;
    while i < src.len()
        invariant
            i <= src.len(),
            r@ == src@.subrange(0, i as int),
        decreases src.len() - i,
    {
        r.push(src[i]);
        i += 1;
        proof {
            assert(r@ =~= src@.subrange(0, i as int));
        }
    }
    proof {
        assert(r@ =~= src@);
    }
    r
}

/// Copy a whole relative path, component by component.
pub fn clone_path(src: &Vec<Vec<u8>>) -> (r: Vec<Vec<u8>>)
    ensures
        r.deep_view() == src.deep_view(),
        r@.len() == src@.len(),
{
    let mut r: Vec<Vec<u8>> = Vec::new();
    let mut i: usize = 0;
    while i < src.len()
        invariant
            i <= src.len(),
            r@.len() == i,
            r.deep_view() == src.deep_view().subrange(0, i as int),
        decreases src.len() - i,
    {
        let component = clone_bytes(&src[i]);
        r.push(component);
        i += 1;
        proof {
            assert(r.deep_view() =~= src.deep_view().subrange(0, i as int));
        }
    }
    proof {
        assert(r.deep_view() =~= src.deep_view());
    }
    r
}

} // verus!
