//! Argument lists of a fixed length.

use vstd::prelude::*;

verus! {

/// The first `m` of `args`, as texts, with empty texts where `args` has
/// fewer.
pub open spec fn padded(args: Seq<String>, m: nat) -> Seq<Seq<char>> {
    Seq::new(
        m,
        |i: int|
            if i < args.len() {
                args[i]@
            } else {
                Seq::<char>::empty()
            },
    )
}

/// The texts of the strings in `strings`.
pub open spec fn texts(strings: Seq<String>) -> Seq<Seq<char>> {
    Seq::new(strings.len(), |i: int| strings[i]@)
}

/// Turns a vector into an array of the same strings.
///
/// Trusted: `TryFrom<Vec<T>> for [T; M]` of the standard library, which hands
/// back the whole contents of a vector as an array when the vector has
/// exactly `M` elements. The call is made only on such a vector, so it does
/// not fail.
#[verifier::external_body]
fn into_array<const M: usize>(v: Vec<String>) -> (r: [String; M])
    requires
        v@.len() == M,
    ensures
        r@ == v@,
{
    let array: Result<[String; M], Vec<String>> = v.try_into();
    array.ok().unwrap()
}

/// Destructures an argument list into exactly `M` strings: the first `M`
/// arguments in order, and an empty string for each one that is missing.
/// `N` is the number of arguments that the caller means to be present.
pub fn extract_args<const N: usize, const M: usize>(args: Vec<String>) -> (r: [String; M])
    ensures
        texts(r@) == padded(args@, M as nat),
{
    let mut out: Vec<String> = Vec::new();
    let mut i: usize = 0;
    while i < M
        invariant
            i <= M,
            out@.len() == i,
            forall|j: int| 0 <= j < i ==> (#[trigger] out@[j])@ == padded(args@, M as nat)[j],
        decreases M - i,
    {
        if i < args.len() {
            out.push(args[i].clone());
        } else {
            out.push(String::new());
        }
        i = i + 1;
    }
    let r = into_array::<M>(out);
    assert(texts(r@) =~= padded(args@, M as nat));
    r
}

} // verus!
