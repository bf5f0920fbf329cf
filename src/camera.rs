use vstd::prelude::*;
use vstd::utf8::encode_utf8;

verus! {

/// `s` begins with `p`.
pub open spec fn starts_with(s: Seq<u8>, p: Seq<u8>) -> bool {
    p.len() <= s.len() && s.subrange(0, p.len() as int) == p
}

/// The name of `names[i]` marks a capture camera: its UTF-8 text begins with `prefix`.
pub open spec fn is_camera_name(names: Seq<String>, prefix: Seq<char>, i: int) -> bool {
    starts_with(encode_utf8(names[i]@), encode_utf8(prefix))
}

/// How many of the first `i` names mark capture cameras.
pub open spec fn cameras_before(names: Seq<String>, prefix: Seq<char>, i: int) -> nat
    decreases i,
{
    if i <= 0 {
        0
    } else {
        cameras_before(names, prefix, i - 1) + if is_camera_name(names, prefix, i - 1) {
            1nat
        } else {
            0nat
        }
    }
}

/// Whether the text of `name` begins with `prefix`.
pub fn has_prefix(name: &str, prefix: &str) -> (r: bool)
    ensures
        r == starts_with(encode_utf8(name@), encode_utf8(prefix@)),
{
    let b = name.as_bytes();
    let p = prefix.as_bytes();
    if p.len() > b.len() {
        return false;
    }
    let mut i: usize = 0;
    while i < p.len()
        invariant
            p@ == encode_utf8(prefix@),
            b@ == encode_utf8(name@),
            p@.len() <= b@.len(),
            i <= p@.len(),
            forall|k: int| 0 <= k < i ==> b@[k] == p@[k],
        decreases p@.len() - i,
    {
        if b[i] != p[i] {
            assert(b@.subrange(0, p@.len() as int)[i as int] != p@[i as int]);
            return false;
        }
        i = i + 1;
    }
    assert(b@.subrange(0, p@.len() as int) =~= p@);
    true
}

/// Gives each scene entity whose name begins with `prefix` the next camera
/// index, in the order the entities are listed, starting at zero; the other
/// entities get none. Indices are dense: the `k`-th camera found gets `k`.
pub fn assign_camera_indices(names: &Vec<String>, prefix: &str) -> (r: Vec<Option<usize>>)
    ensures
        r@.len() == names@.len(),
        forall|i: int|
            0 <= i < names@.len() ==> #[trigger] r@[i] == if is_camera_name(names@, prefix@, i) {
                Some(cameras_before(names@, prefix@, i) as usize)
            } else {
                None
            },
{
    let mut r: Vec<Option<usize>> = Vec::new();
    let mut next: usize = 0;
    let mut i: usize = 0;
    while i < names.len()
        invariant
            i <= names@.len(),
            r@.len() == i,
            next == cameras_before(names@, prefix@, i as int),
            next <= i,
            forall|k: int|
                0 <= k < i ==> #[trigger] r@[k] == if is_camera_name(names@, prefix@, k) {
                    Some(cameras_before(names@, prefix@, k) as usize)
                } else {
                    None
                },
        decreases names@.len() - i,
    {
        if has_prefix(names[i].as_str(), prefix) {
            r.push(Some(next));
            next = next + 1;
        } else {
            r.push(None);
        }
        i = i + 1;
    }
    r
}

} // verus!
