use vstd::prelude::*;

verus! {

/// A pixel with its first and third channels swapped: RGBA to BGRA and back.
pub open spec fn swapped(p: [u8; 4]) -> Seq<u8> {
    seq![p@[2], p@[1], p@[0], p@[3]]
}

/// Writes each pixel of `src` into `dst` with its red and blue channels
/// swapped, as far as the shorter of the two goes; the rest of `dst` stays.
pub fn transpose(dst: &mut [[u8; 4]], src: &[[u8; 4]])
    ensures
        final(dst)@.len() == old(dst)@.len(),
        forall|i: int|
            0 <= i < old(dst)@.len() && i < src@.len() ==> (#[trigger] final(dst)@[i])@
                == swapped(src@[i]),
        forall|i: int|
            src@.len() <= i < old(dst)@.len() ==> #[trigger] final(dst)@[i] == old(dst)@[i],
{
    let n = if dst.len() < src.len() {
        dst.len()
    } else {
        src.len()
    };
    let mut i: usize = 0;
    while i < n
        invariant
            n <= dst@.len(),
            n <= src@.len(),
            n == dst@.len() || n == src@.len(),
            i <= n,
            dst@.len() == old(dst)@.len(),
            forall|j: int| 0 <= j < i ==> (#[trigger] dst@[j])@ == swapped(src@[j]),
            forall|j: int| i <= j < dst@.len() ==> #[trigger] dst@[j] == old(dst)@[j],
        decreases n - i,
    {
        let p = src[i];
        let q: [u8; 4] = [p[2], p[1], p[0], p[3]];
        assert(q@ =~= swapped(p));
        dst[i] = q;
        i = i + 1;
    }
}

} // verus!
