//! The icon-file (`.ico`) reader that picks the image used for the tray.
use vstd::prelude::*;
use vstd::slice::slice_subrange;

verus! {

/// The little-endian 16-bit number at `at` in `b`.
pub open spec fn u16_le(b: Seq<u8>, at: int) -> nat {
    b[at] as nat + 256 * (b[at + 1] as nat)
}

/// The little-endian 32-bit number at `at` in `b`.
pub open spec fn u32_le(b: Seq<u8>, at: int) -> nat {
    b[at] as nat + 256 * (b[at + 1] as nat) + 65536 * (b[at + 2] as nat) + 16777216 * (b[at
        + 3] as nat)
}

/// Where the directory entry `i` starts: after the six-byte header, sixteen bytes each.
pub open spec fn entry_start(i: int) -> int {
    6 + 16 * i
}

/// Whether directory entry `i` describes a 32 by 32 image (a stored size of 0 means 256,
/// which is taken as well).
pub open spec fn is_tray_sized(b: Seq<u8>, i: int) -> bool {
    let e = entry_start(i);
    (b[e] == 32 || b[e] == 0) && (b[e + 1] == 32 || b[e + 1] == 0)
}

/// The entry chosen among the first `n` and its bit depth: the last tray-sized
/// entry whose bit depth is at least that of every tray-sized entry before it,
/// entry 0 when none is tray-sized.
pub open spec fn best_entry(b: Seq<u8>, n: nat) -> (int, nat)
    decreases n,
{
    if n == 0 {
        (0, 0)
    } else {
        let prev = best_entry(b, (n - 1) as nat);
        let bpp = u16_le(b, entry_start(n - 1) + 6);
        if is_tray_sized(b, n - 1) && bpp >= prev.1 {
            (n - 1, bpp)
        } else {
            prev
        }
    }
}

/// The byte range of the chosen image, when the header, the directory and the
/// chosen entry's offset and size fit in `b`.
pub open spec fn icon_image_range(b: Seq<u8>) -> Option<(int, int)> {
    if b.len() < 6 {
        None
    } else {
        let count = u16_le(b, 4);
        if count == 0 || b.len() < 6 + 16 * count {
            None
        } else {
            let e = entry_start(best_entry(b, count).0);
            let size = u32_le(b, e + 8);
            let off = u32_le(b, e + 12);
            if off + size <= b.len() {
                Some((off as int, (off + size) as int))
            } else {
                None
            }
        }
    }
}

/// The bytes of the chosen image.
pub open spec fn icon_image(b: Seq<u8>) -> Option<Seq<u8>> {
    match icon_image_range(b) {
        Some((lo, hi)) => Some(b.subrange(lo, hi)),
        None => None,
    }
}

/// The chosen entry always lies among the first `n`.
pub proof fn lemma_best_entry_bound(b: Seq<u8>, n: nat)
    ensures
        0 <= best_entry(b, n).0,
        n == 0 || best_entry(b, n).0 < n,
    decreases n,
{
    if n > 0 {
        lemma_best_entry_bound(b, (n - 1) as nat);
    }
}

fn read_u16_le(b: &[u8], at: usize) -> (r: u64)
    requires
        at + 2 <= b@.len(),
    ensures
        r == u16_le(b@, at as int),
{
    (b[at] as u64) + 256 * (b[at + 1] as u64)
}

fn read_u32_le(b: &[u8], at: usize) -> (r: u64)
    requires
        at + 4 <= b@.len(),
    ensures
        r == u32_le(b@, at as int),
{
    (b[at] as u64) + 256 * (b[at + 1] as u64) + 65536 * (b[at + 2] as u64) + 16777216 * (b[at
        + 3] as u64)
}

/// The image data (bitmap header and masks) of the 32 by 32 icon of the
/// highest bit depth in the icon file `ico_bytes`; `None` when the file is too
/// short for its own directory or the chosen image.
pub fn extract_icon_data(ico_bytes: &[u8]) -> (r: Option<&[u8]>)
    ensures
        match r {
            Some(img) => icon_image(ico_bytes@) == Some(img@),
            None => icon_image(ico_bytes@) is None,
        },
{
    let b = ico_bytes;
    if b.len() < 6 {
        return None;
    }
    let count = read_u16_le(b, 4);
    if count == 0 || (b.len() as u64) < 6 + count * 16 {
        return None;
    }
    let count = count as usize;
    let mut best: usize = 0;
    let mut best_bpp: u64 = 0;
    let mut i: usize = 0;
    while i < count
        invariant
            i <= count,
            count == u16_le(b@, 4),
            6 + 16 * count <= b@.len(),
            (best as int, best_bpp as nat) == best_entry(b@, i as nat),
            best_bpp < 65536,
        decreases count - i,
    {
        let e = 6 + i * 16;
        let w = b[e];
        let h = b[e + 1];
        let bpp = read_u16_le(b, e + 6);
        if (w == 32 || w == 0) && (h == 32 || h == 0) && bpp >= best_bpp {
            best = i;
            best_bpp = bpp;
        }
        i = i + 1;
    }
    proof {
        lemma_best_entry_bound(b@, count as nat);
    }
    let e = 6 + best * 16;
    let size = read_u32_le(b, e + 8);
    let off = read_u32_le(b, e + 12);
    if off + size <= b.len() as u64 {
        Some(slice_subrange(b, off as usize, (off + size) as usize))
    } else {
        None
    }
}


/// The bit depth stored in directory entry `i`: the little-endian 16-bit number
/// six bytes into the entry.
pub open spec fn entry_depth(b: Seq<u8>, i: int) -> int {
    b[6 + 16 * i + 6] + 256 * b[6 + 16 * i + 7]
}

/// Whether directory entry `i` is 32 by 32 pixels (a stored 0 meaning 256).
pub open spec fn entry_is_32(b: Seq<u8>, i: int) -> bool {
    (b[6 + 16 * i] == 32 || b[6 + 16 * i] == 0) && (b[6 + 16 * i + 1] == 32 || b[6 + 16 * i + 1] == 0)
}

/// Whether `i` is the entry to use among the first `n`: the 32 by 32 entry of
/// the greatest bit depth, the last one among equals; entry 0 when none is 32 by 32.
pub open spec fn deepest_tray_entry(b: Seq<u8>, n: int, i: int) -> bool {
    if exists|j: int| 0 <= j < n && #[trigger] entry_is_32(b, j) {
        &&& 0 <= i < n
        &&& entry_is_32(b, i)
        &&& forall|j: int| 0 <= j < n && #[trigger] entry_is_32(b, j) ==> entry_depth(b, j) <= entry_depth(b, i)
        &&& forall|j: int| i < j < n && #[trigger] entry_is_32(b, j) ==> entry_depth(b, j) < entry_depth(b, i)
    } else {
        i == 0
    }
}

proof fn lemma_best_entry_deepest(b: Seq<u8>, n: nat)
    requires
        6 + 16 * n <= b.len(),
    ensures
        deepest_tray_entry(b, n as int, best_entry(b, n).0),
        (exists|j: int| 0 <= j < n && #[trigger] entry_is_32(b, j)) ==> best_entry(b, n).1 == entry_depth(b, best_entry(b, n).0),
        !(exists|j: int| 0 <= j < n && #[trigger] entry_is_32(b, j)) ==> best_entry(b, n).1 == 0,
    decreases n,
{
    if n > 0 {
        let m = (n - 1) as nat;
        lemma_best_entry_deepest(b, m);
        let k = n - 1;
        assert(is_tray_sized(b, k) == entry_is_32(b, k));
        assert(u16_le(b, entry_start(k) + 6) == entry_depth(b, k));
        let prev = best_entry(b, m);
        if exists|j: int| 0 <= j < m && #[trigger] entry_is_32(b, j) {
            assert(exists|j: int| 0 <= j < n && #[trigger] entry_is_32(b, j));
            if entry_is_32(b, k) && entry_depth(b, k) >= prev.1 {
                assert forall|j: int| 0 <= j < n && #[trigger] entry_is_32(b, j) implies entry_depth(b, j) <= entry_depth(b, k) by {
                    if j < k {
                        assert(entry_depth(b, j) <= entry_depth(b, prev.0));
                    }
                }
            } else {
                assert forall|j: int| 0 <= j < n && #[trigger] entry_is_32(b, j) implies entry_depth(b, j) <= entry_depth(b, prev.0) by {}
                assert forall|j: int| prev.0 < j < n && #[trigger] entry_is_32(b, j) implies entry_depth(b, j) < entry_depth(b, prev.0) by {}
            }
        } else {
            if entry_is_32(b, k) {
                assert(entry_depth(b, k) >= 0);
                assert(exists|j: int| 0 <= j < n && #[trigger] entry_is_32(b, j));
                assert forall|j: int| 0 <= j < n && #[trigger] entry_is_32(b, j) implies j == k by {}
            } else {
                assert forall|j: int| 0 <= j < n implies !#[trigger] entry_is_32(b, j) by {}
            }
        }
    }
}

/// The image taken from an icon file is the 32 by 32 image of the greatest
/// bit depth (the last of equals; the first entry when none is 32 by 32): the
/// bytes that its directory entry's size (at byte 8) and offset (at byte 12)
/// name. There is none exactly when the file is shorter than its header and
/// directory, lists no image, or is too short for that image.
pub proof fn lemma_icon_image_is_deepest_tray_image(b: Seq<u8>)
    ensures
        icon_image(b) is None <==> (b.len() < 6 || b[4] + 256 * b[5] == 0 || b.len() < 6 + 16 * (b[4] + 256 * b[5])
            || (forall|i: int| #[trigger] deepest_tray_entry(b, b[4] + 256 * b[5], i) ==> u32_le(b, 6 + 16 * i + 12) + u32_le(b, 6 + 16 * i + 8) > b.len())),
        forall|img: Seq<u8>| #[trigger] icon_image(b) == Some(img) ==> exists|i: int|
            #[trigger] deepest_tray_entry(b, b[4] + 256 * b[5], i) && img == b.subrange(
                u32_le(b, 6 + 16 * i + 12) as int,
                (u32_le(b, 6 + 16 * i + 12) + u32_le(b, 6 + 16 * i + 8)) as int,
            ),
{
    if b.len() >= 6 {
        let count = u16_le(b, 4);
        assert(count == b[4] + 256 * b[5]);
        if count > 0 && b.len() >= 6 + 16 * count {
            lemma_best_entry_deepest(b, count);
            let i = best_entry(b, count).0;
            assert(deepest_tray_entry(b, count as int, i));
            assert forall|i2: int| #[trigger] deepest_tray_entry(b, count as int, i2) implies i2 == i by {
                if exists|j: int| 0 <= j < count && #[trigger] entry_is_32(b, j) {
                    if i2 < i {
                        assert(entry_depth(b, i) < entry_depth(b, i2));
                    } else if i < i2 {
                        assert(entry_depth(b, i2) < entry_depth(b, i));
                    }
                }
            }
            assert(entry_start(i) == 6 + 16 * i);
        }
    }
}
} // verus!
