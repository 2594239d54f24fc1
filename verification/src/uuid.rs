use vstd::prelude::*;

verus! {

/// A 128-bit interface identifier in the layout of the Slang API: a 32-bit
/// word, two 16-bit words and eight bytes.
#[derive(Clone, Copy, Debug, PartialEq, Eq, Hash)]
pub struct UUID {
    pub data1: u32,
    pub data2: u16,
    pub data3: u16,
    pub data4: [u8; 8],
}

/// The 128-bit number that `id` stands for: `data1` in the top 32 bits, then
/// `data2`, `data3` and the bytes of `data4`, the first of them highest.
pub open spec fn uuid_value(id: UUID) -> u128 {
    (id.data1 as u128) << 96u128 | (id.data2 as u128) << 80u128 | (id.data3 as u128) << 64u128
        | (id.data4[0] as u128) << 56u128 | (id.data4[1] as u128) << 48u128
        | (id.data4[2] as u128) << 40u128 | (id.data4[3] as u128) << 32u128
        | (id.data4[4] as u128) << 24u128 | (id.data4[5] as u128) << 16u128
        | (id.data4[6] as u128) << 8u128 | (id.data4[7] as u128)
}

/// Splits a 128-bit identifier, written as one number, into the fields of a
/// `UUID`: the top 32 bits, the next two 16-bit words, and the low 64 bits as
/// eight bytes in big-endian order.
pub fn uuid(value: u128) -> (r: UUID)
    ensures
        r.data1 == (value >> 96u128) as u32,
        r.data2 == ((value >> 80u128) & 0xffff) as u16,
        r.data3 == ((value >> 64u128) & 0xffff) as u16,
        forall|i: int| 0 <= i < 8 ==> #[trigger] r.data4[i] == ((value >> (56 - 8 * i) as u128) & 0xff) as u8,
        uuid_value(r) == value,
{
    let low: u64 = value as u64;
    let b0 = (low >> 56u64) as u8;
    let b1 = (low >> 48u64) as u8;
    let b2 = (low >> 40u64) as u8;
    let b3 = (low >> 32u64) as u8;
    let b4 = (low >> 24u64) as u8;
    let b5 = (low >> 16u64) as u8;
    let b6 = (low >> 8u64) as u8;
    let b7 = low as u8;
    let d1 = (value >> 96u128) as u32;
    let d2 = ((value >> 80u128) & 0xffff) as u16;
    let d3 = ((value >> 64u128) & 0xffff) as u16;
    proof {
        assert(b0 == ((value >> 56u128) & 0xff) as u8 && b1 == ((value >> 48u128) & 0xff) as u8
            && b2 == ((value >> 40u128) & 0xff) as u8 && b3 == ((value >> 32u128) & 0xff) as u8
            && b4 == ((value >> 24u128) & 0xff) as u8 && b5 == ((value >> 16u128) & 0xff) as u8
            && b6 == ((value >> 8u128) & 0xff) as u8 && b7 == ((value >> 0u128) & 0xff) as u8)
            by (bit_vector)
            requires
                low == value as u64,
                b0 == (low >> 56u64) as u8,
                b1 == (low >> 48u64) as u8,
                b2 == (low >> 40u64) as u8,
                b3 == (low >> 32u64) as u8,
                b4 == (low >> 24u64) as u8,
                b5 == (low >> 16u64) as u8,
                b6 == (low >> 8u64) as u8,
                b7 == low as u8,
        ;
        assert((d1 as u128) << 96u128 | (d2 as u128) << 80u128 | (d3 as u128) << 64u128
            | (b0 as u128) << 56u128 | (b1 as u128) << 48u128 | (b2 as u128) << 40u128
            | (b3 as u128) << 32u128 | (b4 as u128) << 24u128 | (b5 as u128) << 16u128
            | (b6 as u128) << 8u128 | (b7 as u128) == value) by (bit_vector)
            requires
                low == value as u64,
                d1 == (value >> 96u128) as u32,
                d2 == ((value >> 80u128) & 0xffff) as u16,
                d3 == ((value >> 64u128) & 0xffff) as u16,
                b0 == (low >> 56u64) as u8,
                b1 == (low >> 48u64) as u8,
                b2 == (low >> 40u64) as u8,
                b3 == (low >> 32u64) as u8,
                b4 == (low >> 24u64) as u8,
                b5 == (low >> 16u64) as u8,
                b6 == (low >> 8u64) as u8,
                b7 == low as u8,
        ;
    }
    let r = UUID { data1: d1, data2: d2, data3: d3, data4: [b0, b1, b2, b3, b4, b5, b6, b7] };
    assert(r.data4@ =~= seq![b0, b1, b2, b3, b4, b5, b6, b7]);
    r
}

} // verus!
