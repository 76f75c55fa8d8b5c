use vstd::prelude::*;
use crate::bitmap::{Bitmap, Transform, apply_transform, transformed};

verus! {

/// The operations, in order, that turn a bitmap stored with orientation value `v` upright.
/// Value 1 and values outside 1 to 8 call for none.
pub open spec fn steps_of(v: u16) -> Seq<Transform> {
    if v == 2 {
        seq![Transform::FlipHorizontal]
    } else if v == 3 {
        seq![Transform::Rotate180]
    } else if v == 4 {
        seq![Transform::FlipVertical]
    } else if v == 5 {
        seq![Transform::Rotate90, Transform::FlipHorizontal]
    } else if v == 6 {
        seq![Transform::Rotate90]
    } else if v == 7 {
        seq![Transform::Rotate270, Transform::FlipHorizontal]
    } else if v == 8 {
        seq![Transform::Rotate270]
    } else {
        seq![]
    }
}

/// The bitmap after each of `ops` in turn.
pub open spec fn transformed_all(ops: Seq<Transform>, b: (nat, nat, Seq<u8>)) -> (
    nat,
    nat,
    Seq<u8>,
)
    decreases ops.len(),
{
    if ops.len() == 0 {
        b
    } else {
        transformed_all(ops.drop_first(), transformed(ops[0], b))
    }
}

/// The operations that orientation value `v` calls for.
pub fn orientation_steps(v: u16) -> (r: Vec<Transform>)
    ensures
        r@ == steps_of(v),
        (v == 1 || v < 1 || v > 8) ==> r@.len() == 0,
        v == 6 ==> r@ == seq![Transform::Rotate90],
{
    let r = match v {
        2 => vec![Transform::FlipHorizontal],
        3 => vec![Transform::Rotate180],
        4 => vec![Transform::FlipVertical],
        5 => vec![Transform::Rotate90, Transform::FlipHorizontal],
        6 => vec![Transform::Rotate90],
        7 => vec![Transform::Rotate270, Transform::FlipHorizontal],
        8 => vec![Transform::Rotate270],
        _ => Vec::new(),
    };
    assert(r@ =~= steps_of(v));
    r
}

/// Turns a bitmap stored with orientation value `v` upright.
pub fn apply_orientation(b: Bitmap, v: u16) -> (r: Bitmap)
    requires
        b.wf(),
    ensures
        r.wf(),
        r@ == transformed_all(steps_of(v), b@),
        (v == 1 || v < 1 || v > 8) ==> r@ == b@,
{
    let steps = orientation_steps(v);
    let mut out = b;
    let mut i: usize = 0;
    assert(steps@.skip(0) =~= steps@);
    while i < steps.len()
        invariant
            steps@ == steps_of(v),
            i <= steps@.len(),
            out.wf(),
            transformed_all(steps@, b@) == transformed_all(steps@.skip(i as int), out@),
        decreases steps@.len() - i,
    {
        assert(steps@.skip(i as int).drop_first() =~= steps@.skip(i + 1));
        out = apply_transform(out, steps[i]);
        i += 1;
    }
    assert(steps@.skip(i as int).len() == 0);
    out
}

} // verus!
