use vstd::prelude::*;
use byteorder::{ByteOrder, NativeEndian};

verus! {

/// The little-endian byte sequence of a 32-bit value.
pub open spec fn u32_le_bytes(v: u32) -> Seq<u8> {
    seq![
        (v & 0xff) as u8,
        ((v >> 8) & 0xff) as u8,
        ((v >> 16) & 0xff) as u8,
        ((v >> 24) & 0xff) as u8,
    ]
}

/// The big-endian byte sequence of a 32-bit value.
pub open spec fn u32_be_bytes(v: u32) -> Seq<u8> {
    seq![
        ((v >> 24) & 0xff) as u8,
        ((v >> 16) & 0xff) as u8,
        ((v >> 8) & 0xff) as u8,
        (v & 0xff) as u8,
    ]
}

/// `b` is the platform's fixed-width 32-bit encoding of `v`: one of the two
/// byte orders. Which of the two it is depends on the machine alone, so no
/// spec function can name it; every contract over native encodings goes
/// through this predicate.
pub open spec fn is_native_u32_bytes(b: Seq<u8>, v: u32) -> bool {
    b == u32_le_bytes(v) || b == u32_be_bytes(v)
}

/// `b` holds four native-order 32-bit values, one after the other.
pub open spec fn is_native_uvec4_bytes(b: Seq<u8>, x: u32, y: u32, z: u32, w: u32) -> bool {
    &&& b.len() == 16
    &&& is_native_u32_bytes(b.subrange(0, 4), x)
    &&& is_native_u32_bytes(b.subrange(4, 8), y)
    &&& is_native_u32_bytes(b.subrange(8, 12), z)
    &&& is_native_u32_bytes(b.subrange(12, 16), w)
}

/// Relies on byteorder's `NativeEndian::write_u32`: `NativeEndian` is an
/// alias of `LittleEndian` or `BigEndian`, matching the target, and
/// `write_u32` stores the four-byte encoding of that order at the start of
/// the buffer (it panics only when the buffer holds fewer than four bytes,
/// which the fixed-size buffer here rules out).
#[verifier::external_body]
fn write_u32_native(v: u32) -> (r: Vec<u8>)
    ensures
        r@.len() == 4,
        is_native_u32_bytes(r@, v),
{
    let mut buf = [0u8; 4];
    NativeEndian::write_u32(&mut buf, v);
    buf.to_vec()
}

/// The four bytes a 32-bit scalar kernel argument materializes as, in the
/// platform's native byte order.
pub fn scalar_u32_bytes(v: u32) -> (r: Vec<u8>)
    ensures
        r@.len() == 4,
        is_native_u32_bytes(r@, v),
{
    write_u32_native(v)
}

/// The sixteen bytes a 4x32-bit vector kernel argument materializes as:
/// each lane in the platform's native byte order, lanes in order.
pub fn vector_u32x4_bytes(x: u32, y: u32, z: u32, w: u32) -> (r: Vec<u8>)
    ensures
        r@.len() == 16,
        is_native_uvec4_bytes(r@, x, y, z, w),
{
    let mut r = write_u32_native(x);
    let mut ry = write_u32_native(y);
    let mut rz = write_u32_native(z);
    let mut rw = write_u32_native(w);
    let ghost bx = r@;
    let ghost by = ry@;
    let ghost bz = rz@;
    let ghost bw = rw@;
    r.append(&mut ry);
    r.append(&mut rz);
    r.append(&mut rw);
    proof {
        assert(r@ == bx + by + bz + bw);
        assert(r@.subrange(0, 4) =~= bx);
        assert(r@.subrange(4, 8) =~= by);
        assert(r@.subrange(8, 12) =~= bz);
        assert(r@.subrange(12, 16) =~= bw);
    }
    r
}

} // verus!
