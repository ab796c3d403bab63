//! Paths as byte strings.  Device and entry names come from directory
//! listings and need not be valid text, so a path is kept as the bytes the
//! operating system will see.

use vstd::prelude::*;
use vstd::string::*;

verus! {

/// The byte that separates the components of a path.
pub const SEPARATOR: u8 = 0x2f;

/// `base` followed by a separator and `component`.
pub open spec fn join(base: Seq<u8>, component: Seq<u8>) -> Seq<u8> {
    base.push(SEPARATOR) + component
}

/// Copies a byte string.
pub fn copy_bytes(bytes: &[u8]) -> (r: Vec<u8>)
    ensures
        r@ == bytes@,
{
    let mut r: Vec<u8> = Vec::new();
    append_bytes(&mut r, bytes);
    r
}

/// Appends `bytes` to `path`.
pub fn append_bytes(path: &mut Vec<u8>, bytes: &[u8])
    ensures
        final(path)@ == old(path)@ + bytes@,
{
    let mut i: usize = 0;
    while i < bytes.len()
        invariant
            i <= bytes@.len(),
            path@ == old(path)@ + bytes@.subrange(0, i as int),
        decreases bytes@.len() - i,
    {
        path.push(bytes[i]);
        proof {
            assert(bytes@.subrange(0, i + 1) == bytes@.subrange(0, i as int).push(
                bytes@[i as int],
            ));
        }
        i = i + 1;
    }
    proof {
        assert(bytes@.subrange(0, i as int) == bytes@);
    }
}

/// The path of `component` inside the directory `base`.
pub fn join_path(base: &[u8], component: &[u8]) -> (r: Vec<u8>)
    ensures
        r@ == join(base@, component@),
{
    let mut r: Vec<u8> = copy_bytes(base);
    r.push(SEPARATOR);
    append_bytes(&mut r, component);
    r
}

/// The path of the file called `name` inside the directory `base`.
pub fn join_name(base: &[u8], name: &str) -> (r: Vec<u8>)
    ensures
        r@ == join(base@, name.spec_bytes()),
{
    join_path(base, name.as_bytes())
}

} // verus!
