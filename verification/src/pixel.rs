use vstd::prelude::*;

verus! {

/// The packed RGB stream obtained from a native BGRX stream: for each
/// complete 4-byte (blue, green, red, unused) pixel, the 3-byte
/// (red, green, blue) triad. Output channel `c` of pixel `p` is input
/// channel `2 - c` of the same pixel.
pub open spec fn spec_bgrx_to_rgb(data: Seq<u8>) -> Seq<u8> {
    Seq::new((data.len() / 4 * 3) as nat, |i: int| data[4 * (i / 3) + 2 - (i % 3)])
}

/// The native BGRX stream seeding the offscreen pixmap from a packed RGB
/// stream: for each complete 3-byte (red, green, blue) pixel, the 4-byte
/// (blue, green, red, zero) quad.
pub open spec fn spec_rgb_to_bgrx(data: Seq<u8>) -> Seq<u8> {
    Seq::new(
        (data.len() / 3 * 4) as nat,
        |i: int|
            if i % 4 == 3 {
                0u8
            } else {
                data[3 * (i / 4) + 2 - (i % 4)]
            },
    )
}

/// Convert the display server's native raw pixel stream (4 bytes per pixel:
/// blue, green, red, unused) into a tightly packed RGB buffer (3 bytes per
/// pixel: red, green, blue). Pure channel reordering; a trailing fragment of
/// fewer than 4 bytes contributes nothing.
pub fn bgrx_to_rgb(data: Vec<u8>) -> (rgb: Vec<u8>)
    ensures
        rgb@ == spec_bgrx_to_rgb(data@),
        rgb@.len() == data@.len() / 4 * 3,
{
    let n: usize = data.len() / 4;
    proof {
        assert(4 * (data@.len() / 4) <= data@.len()) by (nonlinear_arith);
    }
    let mut rgb: Vec<u8> = Vec::new();
    let mut p: usize = 0;
    while p < n
        invariant
            n == data@.len() / 4,
            4 * n <= data@.len(),
            data@.len() <= usize::MAX,
            p <= n,
            rgb@.len() == 3 * p,
            forall|i: int| 0 <= i < 3 * p ==> rgb@[i] == data@[4 * (i / 3) + 2 - (i % 3)],
        decreases n - p,
    {
        let b = data[4 * p];
        let g = data[4 * p + 1];
        let r = data[4 * p + 2];
        rgb.push(r);
        rgb.push(g);
        rgb.push(b);
        proof {
            assert forall|i: int| 0 <= i < 3 * (p + 1) implies rgb@[i] == data@[4 * (i / 3) + 2 - (
            i % 3)] by {
                if i >= 3 * p {
                    assert(i / 3 == p && (i % 3 == 0 || i % 3 == 1 || i % 3 == 2))
                        by (nonlinear_arith)
                        requires
                            3 * p <= i < 3 * (p + 1),
                    ;
                }
            }
        }
        p = p + 1;
    }
    proof {
        assert(rgb@ =~= spec_bgrx_to_rgb(data@));
    }
    rgb
}

/// Convert a tightly packed RGB buffer back into the native 4-byte order
/// (blue, green, red, zero) that the server's pixmap write expects. Pure
/// channel reordering with a zeroed pad byte; a trailing fragment of fewer
/// than 3 bytes contributes nothing.
pub fn rgb_to_bgrx(data: Vec<u8>) -> (out: Vec<u8>)
    ensures
        out@ == spec_rgb_to_bgrx(data@),
        out@.len() == data@.len() / 3 * 4,
{
    let n: usize = data.len() / 3;
    proof {
        assert(3 * (data@.len() / 3) <= data@.len()) by (nonlinear_arith);
        assert(4 * (data@.len() / 3) <= 2 * data@.len() + 4) by (nonlinear_arith);
    }
    let mut out: Vec<u8> = Vec::new();
    let mut p: usize = 0;
    while p < n
        invariant
            n == data@.len() / 3,
            3 * n <= data@.len(),
            data@.len() <= usize::MAX,
            p <= n,
            out@.len() == 4 * p,
            forall|i: int|
                0 <= i < 4 * p ==> out@[i] == (if i % 4 == 3 {
                    0u8
                } else {
                    data@[3 * (i / 4) + 2 - (i % 4)]
                }),
        decreases n - p,
    {
        let r = data[3 * p];
        let g = data[3 * p + 1];
        let b = data[3 * p + 2];
        out.push(b);
        out.push(g);
        out.push(r);
        out.push(0);
        proof {
            assert forall|i: int| 0 <= i < 4 * (p + 1) implies out@[i] == (if i % 4 == 3 {
                0u8
            } else {
                data@[3 * (i / 4) + 2 - (i % 4)]
            }) by {
                if i >= 4 * p {
                    assert(i / 4 == p && (i % 4 == 0 || i % 4 == 1 || i % 4 == 2 || i % 4 == 3))
                        by (nonlinear_arith)
                        requires
                            4 * p <= i < 4 * (p + 1),
                    ;
                }
            }
        }
        p = p + 1;
    }
    proof {
        assert(out@ =~= spec_rgb_to_bgrx(data@));
    }
    out
}

/// Pixel conversion is order-invariant: converting a native (b, g, r, x)
/// stream to packed (r, g, b) and applying the inverse channel mapping
/// recovers every original (b, g, r) triad; only the unused fourth byte of
/// each pixel is replaced by zero.
pub proof fn lemma_pixel_round_trip(data: Seq<u8>)
    requires
        data.len() % 4 == 0,
    ensures
        spec_rgb_to_bgrx(spec_bgrx_to_rgb(data)).len() == data.len(),
        forall|i: int|
            0 <= i < data.len() && i % 4 != 3 ==> spec_rgb_to_bgrx(spec_bgrx_to_rgb(data))[i]
                == data[i],
        forall|i: int|
            0 <= i < data.len() && i % 4 == 3 ==> spec_rgb_to_bgrx(spec_bgrx_to_rgb(data))[i]
                == 0u8,
{
    let mid = spec_bgrx_to_rgb(data);
    let q = data.len() as int / 4;
    assert(mid.len() == 3 * q) by (nonlinear_arith)
        requires
            mid.len() == data.len() / 4 * 3,
            q == data.len() / 4,
    ;
    assert((3 * q) / 3 == q) by (nonlinear_arith);
    assert(4 * q == data.len()) by (nonlinear_arith)
        requires
            data.len() % 4 == 0,
            q == data.len() / 4,
    ;
    let back = spec_rgb_to_bgrx(mid);
    assert(back.len() == data.len());
    assert forall|i: int| 0 <= i < data.len() && i % 4 != 3 implies back[i] == data[i] by {
        let p = i / 4;
        let c = i % 4;
        assert(0 <= c < 4 && i == 4 * p + c && 0 <= p < q) by (nonlinear_arith)
            requires
                0 <= i < 4 * q,
                p == i / 4,
                c == i % 4,
        ;
        let j = 3 * p + 2 - c;
        assert(j / 3 == p && j % 3 == 2 - c) by (nonlinear_arith)
            requires
                0 <= c < 3,
                j == 3 * p + 2 - c,
                0 <= p,
        ;
        assert(back[i] == mid[j]);
        assert(mid[j] == data[4 * p + c]);
    }
}

} // verus!
