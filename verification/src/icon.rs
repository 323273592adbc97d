//! Picking an image out of a Windows `.ico` file.
use vstd::prelude::*;

verus! {

/// A little-endian 16-bit value at `i`.
pub open spec fn le16(b: Seq<u8>, i: int) -> int {
    b[i] + 256 * b[i + 1]
}

/// A little-endian 32-bit value at `i`.
pub open spec fn le32(b: Seq<u8>, i: int) -> int {
    b[i] + 256 * b[i + 1] + 65536 * b[i + 2] + 16777216 * b[i + 3]
}

/// Whether `b` starts with an ICO header (reserved 0, type 1) and a count.
pub open spec fn is_ico_header(b: Seq<u8>) -> bool {
    b.len() >= 6 && b[0] == 0 && b[1] == 0 && b[2] == 1 && b[3] == 0
}

/// The directory entry `index` (16 bytes from offset `6 + 16 * index`), when it lies
/// inside `b` and so does the image it points to: `(|width - desired|, offset, end)`.
/// A stored width of 0 means 256.
pub open spec fn ico_entry(b: Seq<u8>, index: int, desired: u32) -> Option<(int, int, int)> {
    let entry = 6 + index * 16;
    if entry + 16 > b.len() {
        None
    } else {
        let width: int = if b[entry] == 0 {
            256
        } else {
            b[entry] as int
        };
        let length = le32(b, entry + 8);
        let offset = le32(b, entry + 12);
        if offset + length > usize::MAX || offset + length > b.len() {
            None
        } else {
            let diff = if width >= desired {
                width - desired
            } else {
                desired - width
            };
            Some((diff, offset, offset + length))
        }
    }
}

/// The width difference of entry `index` (0 when the entry is not usable).
pub open spec fn entry_diff(b: Seq<u8>, index: int, desired: u32) -> int {
    match ico_entry(b, index, desired) {
        Some(e) => e.0,
        None => 0,
    }
}

/// The image bytes of entry `index` (empty when the entry is not usable).
pub open spec fn entry_image(b: Seq<u8>, index: int, desired: u32) -> Seq<u8> {
    match ico_entry(b, index, desired) {
        Some(e) => b.subrange(e.1, e.2),
        None => Seq::empty(),
    }
}

/// Whether entry `index` is the first entry among the first `count` whose width is
/// nearest to `desired`.
pub open spec fn is_nearest_entry(b: Seq<u8>, count: int, desired: u32, index: int) -> bool {
    &&& 0 <= index < count
    &&& ico_entry(b, index, desired) is Some
    &&& forall|j: int|
        0 <= j < count && (#[trigger] ico_entry(b, j, desired)) is Some ==> entry_diff(b, index, desired)
            <= entry_diff(b, j, desired)
    &&& forall|j: int|
        0 <= j < index && (#[trigger] ico_entry(b, j, desired)) is Some ==> entry_diff(b, index, desired)
            < entry_diff(b, j, desired)
}

/// The image data of the entry whose width is nearest to `desired`, the first such
/// entry when several are equally near; `None` when `bytes` is no ICO file or none of
/// its entries lies inside it.
pub fn ico_image_nearest_to(bytes: &[u8], desired: u32) -> (res: Option<&[u8]>)
    ensures
        match res {
            Some(image) => is_ico_header(bytes@) && exists|index: int|
                #[trigger] is_nearest_entry(bytes@, le16(bytes@, 4), desired, index) && image@
                    == entry_image(bytes@, index, desired),
            None => !is_ico_header(bytes@) || forall|j: int|
                0 <= j < le16(bytes@, 4) ==> (#[trigger] ico_entry(bytes@, j, desired)) is None,
        },
{
    if bytes.len() < 6 || bytes[0] != 0 || bytes[1] != 0 || bytes[2] != 1 || bytes[3] != 0 {
        return None;
    }
    let count: usize = bytes[4] as usize + 256 * (bytes[5] as usize);
    let ghost b = bytes@;
    let mut best: Option<(u32, usize, usize)> = None;
    let ghost mut best_index: int = 0;
    let mut index: usize = 0;
    while index < count
        invariant
            b == bytes@,
            is_ico_header(b),
            count == le16(b, 4),
            index <= count,
            match best {
                Some((diff, start, end)) => {
                    &&& 0 <= best_index < index
                    &&& ico_entry(b, best_index, desired) == Some((diff as int, start as int, end as int))
                    &&& forall|j: int|
                        0 <= j < index && (#[trigger] ico_entry(b, j, desired)) is Some ==> diff
                            <= entry_diff(b, j, desired)
                    &&& forall|j: int|
                        0 <= j < best_index && (#[trigger] ico_entry(b, j, desired)) is Some ==> diff
                            < entry_diff(b, j, desired)
                },
                None => forall|j: int| 0 <= j < index ==> (#[trigger] ico_entry(b, j, desired)) is None,
            },
        decreases count - index,
    {
        let entry = 6 + index * 16;
        if entry + 16 <= bytes.len() {
            let width: u32 = if bytes[entry] == 0 {
                256
            } else {
                bytes[entry] as u32
            };
            let length: u64 = bytes[entry + 8] as u64 + 256 * (bytes[entry + 9] as u64) + 65536 * (
            bytes[entry + 10] as u64) + 16777216 * (bytes[entry + 11] as u64);
            let offset: u64 = bytes[entry + 12] as u64 + 256 * (bytes[entry + 13] as u64) + 65536
                * (bytes[entry + 14] as u64) + 16777216 * (bytes[entry + 15] as u64);
            let end: u64 = offset + length;
            if end <= usize::MAX as u64 && end <= bytes.len() as u64 {
                let diff: u32 = if width >= desired {
                    width - desired
                } else {
                    desired - width
                };
                assert(ico_entry(b, index as int, desired) == Some(
                    (diff as int, offset as int, end as int),
                ));
                let better = match best {
                    Some((d, _, _)) => diff < d,
                    None => true,
                };
                if better {
                    best = Some((diff, offset as usize, end as usize));
                    proof {
                        best_index = index as int;
                    }
                }
            } else {
                assert(ico_entry(b, index as int, desired) is None);
            }
        } else {
            assert(ico_entry(b, index as int, desired) is None);
        }
        index = index + 1;
    }
    match best {
        Some((_, start, end)) => {
            proof {
                assert(is_nearest_entry(b, count as int, desired, best_index));
            }
            Some(&bytes[start..end])
        },
        None => None,
    }
}

} // verus!
