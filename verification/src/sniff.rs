//! Telling image formats apart by their first bytes.

use vstd::prelude::*;

verus! {

/// The six bytes that open a GIF file of the 1989 revision: `GIF89a`.
pub open spec fn gif89a() -> Seq<u8> {
    seq![0x47u8, 0x49u8, 0x46u8, 0x38u8, 0x39u8, 0x61u8]
}

/// The six bytes that open a GIF file of the 1987 revision: `GIF87a`.
pub open spec fn gif87a() -> Seq<u8> {
    seq![0x47u8, 0x49u8, 0x46u8, 0x38u8, 0x37u8, 0x61u8]
}

/// `data` opens with the signature of a GIF file.
pub open spec fn has_gif_signature(data: Seq<u8>) -> bool {
    data.len() >= 6 && (data.take(6) == gif89a() || data.take(6) == gif87a())
}

/// Whether `data` opens with the signature of a GIF file. The signature takes six
/// bytes, so `data` must hold at least that many.
pub fn is_gif(data: &Vec<u8>) -> (r: bool)
    requires
        data.len() >= 6,
    ensures
        r == has_gif_signature(data@),
{
    let r = data[0] == 0x47 && data[1] == 0x49 && data[2] == 0x46 && data[3] == 0x38 && (data[4]
        == 0x39 || data[4] == 0x37) && data[5] == 0x61;
    proof {
        let head = data@.take(6);
        if r {
            if data[4] == 0x39 {
                assert(head =~= gif89a());
            } else {
                assert(head =~= gif87a());
            }
        } else {
            if head == gif89a() || head == gif87a() {
                assert(head[0] == data[0] && head[1] == data[1] && head[2] == data[2]);
                assert(head[3] == data[3] && head[4] == data[4] && head[5] == data[5]);
            }
        }
    }
    r
}

} // verus!
