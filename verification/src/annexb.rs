//! H.264 Annex B byte-stream helpers: start-code search, key-frame detection,
//! NAL unit splitting, parameter-set extraction and STAP-A aggregation.
use vstd::prelude::*;
use vstd::slice::{slice_subrange, slice_to_vec};

verus! {

/// NAL unit type carried in the low five bits of a NAL header byte.
pub open spec fn nal_type_of(b: u8) -> u8 {
    b & 0x1f
}

/// NAL unit type of an instantaneous decoder refresh (IDR) slice.
pub const NAL_TYPE_IDR: u8 = 5;

/// NAL unit type of a sequence parameter set.
pub const NAL_TYPE_SPS: u8 = 7;

/// NAL unit type of a picture parameter set.
pub const NAL_TYPE_PPS: u8 = 8;

/// `d[i..]` begins with the four-byte start code `00 00 00 01`.
pub open spec fn starts_code4(d: Seq<u8>, i: int) -> bool {
    &&& 0 <= i
    &&& i + 4 <= d.len()
    &&& d[i] == 0
    &&& d[i + 1] == 0
    &&& d[i + 2] == 0
    &&& d[i + 3] == 1
}

/// `d[i..]` begins with the three-byte start code `00 00 01`.
pub open spec fn starts_code3(d: Seq<u8>, i: int) -> bool {
    &&& 0 <= i
    &&& i + 3 <= d.len()
    &&& d[i] == 0
    &&& d[i + 1] == 0
    &&& d[i + 2] == 1
}

/// Distance from a start-code position to the NAL header that follows the
/// code: the code's own length, four for `00 00 00 01` and three otherwise.
pub open spec fn header_offset(d: Seq<u8>, i: int) -> int {
    if starts_code4(d, i) {
        4
    } else {
        3
    }
}

/// Position `i` is a window start (`i + 4 <= len`) holding a start code whose
/// header byte, read `header_offset` bytes further, is an IDR header.
pub open spec fn idr_at(d: Seq<u8>, i: int) -> bool {
    &&& 0 <= i
    &&& i + 4 <= d.len()
    &&& i + header_offset(d, i) < d.len()
    &&& (starts_code4(d, i) || starts_code3(d, i))
    &&& nal_type_of(d[i + header_offset(d, i)]) == NAL_TYPE_IDR
}

/// A frame is a key frame when some window position carries an IDR header.
pub open spec fn is_keyframe_spec(d: Seq<u8>) -> bool {
    exists|i: int| idr_at(d, i)
}

fn nal_type(b: u8) -> (r: u8)
    ensures
        r == nal_type_of(b),
{
    b & 0x1f
}

/// Whether encoded frame data holds an IDR NAL unit (a key frame).
pub fn is_keyframe(frame_data: &[u8]) -> (r: bool)
    ensures
        r == is_keyframe_spec(frame_data@),
{
    let len = frame_data.len();
    if len < 4 {
        assert forall|i: int| !idr_at(frame_data@, i) by {}
        return false;
    }
    let mut i: usize = 0;
    while i <= len - 4
        invariant
            len == frame_data@.len(),
            4 <= len,
            i + 3 <= len,
            forall|j: int| 0 <= j < i ==> !idr_at(frame_data@, j),
        decreases len - i,
    {
        let s4 = frame_data[i] == 0 && frame_data[i + 1] == 0 && frame_data[i + 2] == 0 && frame_data[i
            + 3] == 1;
        let s3 = frame_data[i] == 0 && frame_data[i + 1] == 0 && frame_data[i + 2] == 1;
        let offset: usize = if s4 {
            4
        } else {
            3
        };
        if i + offset < len {
            if s4 || s3 {
                if nal_type(frame_data[i + offset]) == NAL_TYPE_IDR {
                    assert(idr_at(frame_data@, i as int));
                    return true;
                }
            }
        }
        i = i + 1;
    }
    assert forall|j: int| !idr_at(frame_data@, j) by {}
    false
}

/// Search for a start code in `d[from..]`: the first four-byte code anywhere
/// in the suffix, and only when there is none, the first three-byte code.
/// The result is an offset relative to `from`.
#[verifier::opaque]
pub open spec fn find_start_code_spec(d: Seq<u8>, from: int) -> Option<int> {
    if exists|i: int| from <= i && starts_code4(d, i) {
        Some(
            (choose|i: int|
                from <= i && starts_code4(d, i) && forall|j: int| from <= j < i ==> !starts_code4(d, j))
                - from,
        )
    } else if exists|i: int| from <= i && starts_code3(d, i) {
        Some(
            (choose|i: int|
                from <= i && starts_code3(d, i) && forall|j: int| from <= j < i ==> !starts_code3(d, j))
                - from,
        )
    } else {
        None
    }
}

/// Returns the first position at or after `from` with a four-byte start code,
/// in a form the quantified specification can use directly.
fn first_code4(data: &[u8], from: usize) -> (r: Option<usize>)
    requires
        from <= data@.len(),
    ensures
        match r {
            Some(p) => from <= p && starts_code4(data@, p as int) && forall|j: int|
                from <= j < p ==> !starts_code4(data@, j),
            None => forall|j: int| from <= j ==> !starts_code4(data@, j),
        },
{
    let len = data.len();
    let mut i = from;
    while i < len && len - i >= 4
        invariant
            len == data@.len(),
            from <= i <= len,
            forall|j: int| from <= j < i ==> !starts_code4(data@, j),
        decreases len - i,
    {
        if data[i] == 0 && data[i + 1] == 0 && data[i + 2] == 0 && data[i + 3] == 1 {
            return Some(i);
        }
        i = i + 1;
    }
    None
}

fn first_code3(data: &[u8], from: usize) -> (r: Option<usize>)
    requires
        from <= data@.len(),
    ensures
        match r {
            Some(p) => from <= p && starts_code3(data@, p as int) && forall|j: int|
                from <= j < p ==> !starts_code3(data@, j),
            None => forall|j: int| from <= j ==> !starts_code3(data@, j),
        },
{
    let len = data.len();
    let mut i = from;
    while i < len && len - i >= 3
        invariant
            len == data@.len(),
            from <= i <= len,
            forall|j: int| from <= j < i ==> !starts_code3(data@, j),
        decreases len - i,
    {
        if data[i] == 0 && data[i + 1] == 0 && data[i + 2] == 1 {
            return Some(i);
        }
        i = i + 1;
    }
    None
}

/// Finds a start code in `data[from..]` and returns its offset relative to `from`.
pub fn find_start_code_from(data: &[u8], from: usize) -> (r: Option<usize>)
    requires
        from <= data@.len(),
    ensures
        match r {
            Some(p) => find_start_code_spec(data@, from as int) == Some(p as int),
            None => find_start_code_spec(data@, from as int) is None,
        },
        r matches Some(p) ==> from + p + 3 <= data@.len(),
{
    reveal(find_start_code_spec);
    let ghost d = data@;
    match first_code4(data, from) {
        Some(p) => {
            proof {
                let q = choose|i: int|
                    from <= i && starts_code4(d, i) && forall|j: int| from <= j < i ==> !starts_code4(d, j);
                assert(from <= p && starts_code4(d, p as int));
                if q < p {
                    assert(!starts_code4(d, q));
                } else if q > p {
                    assert(!starts_code4(d, p as int));
                }
            }
            Some(p - from)
        },
        None => {
            match first_code3(data, from) {
                Some(p) => {
                    proof {
                        let q = choose|i: int|
                            from <= i && starts_code3(d, i) && forall|j: int| from <= j < i ==> !starts_code3(d, j);
                        assert(from <= p && starts_code3(d, p as int));
                        if q < p {
                            assert(!starts_code3(d, q));
                        } else if q > p {
                            assert(!starts_code3(d, p as int));
                        }
                    }
                    Some(p - from)
                },
                None => None,
            }
        },
    }
}

/// Finds the first Annex B start code in `data` (four-byte codes take precedence).
pub fn find_start_code(data: &[u8]) -> (r: Option<usize>)
    ensures
        match r {
            Some(p) => find_start_code_spec(data@, 0) == Some(p as int),
            None => find_start_code_spec(data@, 0) is None,
        },
{
    find_start_code_from(data, 0)
}


/// One NAL unit found by the Annex B scan: where its start code begins, how
/// many bytes separate that position from the header byte, and the NAL type.
#[derive(Debug, Clone, Copy, PartialEq, Eq)]
pub struct NalUnitMark {
    pub offset: usize,
    pub header_distance: usize,
    pub nal_type: u8,
}

/// The Annex B scan from position `i`: find the next start code in `d[i..]`,
/// read the header byte `header_offset` bytes after it, and continue from the
/// header byte; the scan ends when no start code is found or the header byte
/// lies past the end.
pub open spec fn annex_b_scan(d: Seq<u8>, i: int) -> Seq<(int, int, u8)>
    decreases d.len() - i,
{
    if 0 <= i < d.len() {
        match find_start_code_spec(d, i) {
            Some(sp) => {
                let pos = i + sp;
                let h = pos + header_offset(d, pos);
                if i < h < d.len() {
                    seq![(pos, h - pos, nal_type_of(d[h]))] + annex_b_scan(d, h)
                } else {
                    Seq::empty()
                }
            },
            None => Seq::empty(),
        }
    } else {
        Seq::empty()
    }
}

pub open spec fn mark_view(m: NalUnitMark) -> (int, int, u8) {
    (m.offset as int, m.header_distance as int, m.nal_type)
}

/// One step of the Annex B scan from `i`: the mark found and the position to
/// continue from, or `None` when the scan ends here.
pub open spec fn annex_b_step(d: Seq<u8>, i: int) -> Option<((int, int, u8), int)> {
    match find_start_code_spec(d, i) {
        Some(sp) => {
            let pos = i + sp;
            let h = pos + header_offset(d, pos);
            if i < h < d.len() {
                Some(((pos, h - pos, nal_type_of(d[h])), h))
            } else {
                None
            }
        },
        None => None,
    }
}

proof fn lemma_scan_unfold(d: Seq<u8>, i: int)
    requires
        0 <= i < d.len(),
    ensures
        annex_b_scan(d, i) == match annex_b_step(d, i) {
            Some((m, h)) => seq![m] + annex_b_scan(d, h),
            None => Seq::empty(),
        },
{
}

pub open spec fn marks_view(ms: Seq<NalUnitMark>) -> Seq<(int, int, u8)> {
    ms.map_values(|m: NalUnitMark| mark_view(m))
}

/// Walks an encoded frame as an Annex B byte stream and reports each NAL unit
/// found (the sequence of start codes that the stream validation inspects).
pub fn validate_annex_b(data: &[u8]) -> (r: Vec<NalUnitMark>)
    ensures
        marks_view(r@) == annex_b_scan(data@, 0),
{
    let ghost d = data@;
    let len = data.len();
    let mut marks: Vec<NalUnitMark> = Vec::new();
    let mut i: usize = 0;
    let ghost mut acc: Seq<(int, int, u8)> = Seq::empty();
    while i < len
        invariant
            len == d.len(),
            d == data@,
            i <= len,
            marks_view(marks@) == acc,
            acc + annex_b_scan(d, i as int) == annex_b_scan(d, 0),
        decreases len - i,
    {
        proof {
            lemma_scan_unfold(d, i as int);
        }
        match find_start_code_from(data, i) {
            Some(start_pos) => {
                let pos = i + start_pos;
                let hdr: usize = if len - pos >= 4 && data[pos] == 0 && data[pos + 1] == 0 && data[pos + 2]
                    == 0 && data[pos + 3] == 1 {
                    4
                } else {
                    3
                };
                if hdr < len - pos {
                    let h = pos + hdr;
                    let m = NalUnitMark { offset: pos, header_distance: hdr, nal_type: nal_type(data[h]) };
                    assert(annex_b_step(d, i as int) == Some((mark_view(m), h as int)));
                    marks.push(m);
                    proof {
                        let old_acc = acc;
                        acc = acc.push(mark_view(m));
                        assert(marks_view(marks@) == acc);
                        assert(acc + annex_b_scan(d, h as int) == old_acc + (seq![mark_view(m)]
                            + annex_b_scan(d, h as int)));
                    }
                    i = h;
                } else {
                    assert(annex_b_step(d, i as int) is None);
                    assert(acc + Seq::<(int, int, u8)>::empty() == acc);
                    return marks;
                }
            },
            None => {
                assert(annex_b_step(d, i as int) is None);
                assert(acc + Seq::<(int, int, u8)>::empty() == acc);
                return marks;
            },
        }
    }
    assert(acc + Seq::<(int, int, u8)>::empty() == acc);
    marks
}

/// A start code of either length begins at `i` in the form the NAL splitter
/// recognises: `00 00 01`, or `00 00 00 01` with at least one byte after it.
pub open spec fn split_code_at(d: Seq<u8>, i: int) -> bool {
    &&& d[i] == 0
    &&& d[i + 1] == 0
    &&& (d[i + 2] == 1 || (d[i + 2] == 0 && i + 4 < d.len() && d[i + 3] == 1))
}

pub open spec fn split_code_len(d: Seq<u8>, i: int) -> int {
    if d[i + 2] == 1 {
        3
    } else {
        4
    }
}

/// The NAL unit ranges (start inclusive, end exclusive) that the splitter
/// yields when scanning from `i` with the current unit starting at `start`.
pub open spec fn split_from(d: Seq<u8>, i: int, start: int) -> Seq<(int, int)>
    decreases d.len() - i,
{
    if 0 <= i && i + 3 < d.len() {
        if split_code_at(d, i) {
            let next = i + split_code_len(d, i);
            if i > start {
                seq![(start, i)] + split_from(d, next, next)
            } else {
                split_from(d, next, next)
            }
        } else {
            split_from(d, i + 1, start)
        }
    } else if start < d.len() {
        seq![(start, d.len() as int)]
    } else {
        Seq::empty()
    }
}

/// The NAL unit ranges of an Annex B frame, without their start codes.
pub open spec fn nalu_ranges(d: Seq<u8>) -> Seq<(int, int)> {
    split_from(d, 0, 0)
}

/// The NAL units of an Annex B frame, without their start codes.
pub open spec fn nalus_spec(d: Seq<u8>) -> Seq<Seq<u8>> {
    nalu_ranges(d).map_values(|r: (int, int)| d.subrange(r.0, r.1))
}

pub open spec fn range_view(r: (usize, usize)) -> (int, int) {
    (r.0 as int, r.1 as int)
}

/// Splits an Annex B frame into the ranges of its NAL units (start codes removed).
pub fn nalu_ranges_of(data: &[u8]) -> (r: Vec<(usize, usize)>)
    ensures
        r@.map_values(|p: (usize, usize)| range_view(p)) == nalu_ranges(data@),
{
    let ghost d = data@;
    let len = data.len();
    let mut ranges: Vec<(usize, usize)> = Vec::new();
    let mut start: usize = 0;
    let mut i: usize = 0;
    while i < len && len - i > 3
        invariant
            len == d.len(),
            d == data@,
            start <= i,
            i <= len,
            ranges@.map_values(|p: (usize, usize)| range_view(p)) + split_from(d, i as int, start as int)
                == nalu_ranges(d),
        decreases len - i,
    {
        let ghost old_r = ranges@.map_values(|p: (usize, usize)| range_view(p));
        if data[i] == 0 && data[i + 1] == 0 && (data[i + 2] == 1 || (data[i + 2] == 0 && i + 4 < len
            && data[i + 3] == 1)) {
            let skip: usize = if data[i + 2] == 1 {
                3
            } else {
                4
            };
            let next = i + skip;
            if i > start {
                ranges.push((start, i));
                proof {
                    assert(ranges@.map_values(|p: (usize, usize)| range_view(p)) == old_r.push(
                        (start as int, i as int),
                    ));
                    assert(split_from(d, i as int, start as int) == seq![(start as int, i as int)]
                        + split_from(d, next as int, next as int));
                    assert(old_r.push((start as int, i as int)) + split_from(d, next as int, next as int)
                        == old_r + split_from(d, i as int, start as int));
                }
            }
            start = next;
            i = next;
        } else {
            i = i + 1;
        }
    }
    let ghost old_r = ranges@.map_values(|p: (usize, usize)| range_view(p));
    if start < len {
        ranges.push((start, len));
        proof {
            assert(ranges@.map_values(|p: (usize, usize)| range_view(p)) == old_r.push(
                (start as int, len as int),
            ));
            assert(old_r + split_from(d, i as int, start as int) == old_r.push((start as int, len as int)));
        }
    } else {
        proof {
            assert(old_r + split_from(d, i as int, start as int) == old_r);
        }
    }
    ranges
}

/// Every range the splitter yields from `(i, start)` is non-empty, lies in
/// `[start, len)`, and the ranges follow one another without overlap.
pub proof fn lemma_split_ranges_ordered(d: Seq<u8>, i: int, start: int)
    requires
        0 <= start <= i,
    ensures
        forall|k: int|
            0 <= k < split_from(d, i, start).len() ==> start <= #[trigger] split_from(d, i, start)[k].0
                < split_from(d, i, start)[k].1 <= d.len(),
        forall|k: int|
            0 <= k < split_from(d, i, start).len() - 1 ==> #[trigger] split_from(d, i, start)[k].1
                <= split_from(d, i, start)[k + 1].0,
    decreases d.len() - i,
{
    let all = split_from(d, i, start);
    if 0 <= i && i + 3 < d.len() {
        if split_code_at(d, i) {
            let next = i + split_code_len(d, i);
            lemma_split_ranges_ordered(d, next, next);
            let rest = split_from(d, next, next);
            if i > start {
                assert(all == seq![(start, i)] + rest);
                assert forall|k: int| 0 <= k < all.len() implies start <= #[trigger] all[k].0 < all[k].1
                    <= d.len() by {
                    if k > 0 {
                        assert(all[k] == rest[k - 1]);
                    }
                }
                assert forall|k: int| 0 <= k < all.len() - 1 implies #[trigger] all[k].1 <= all[k + 1].0 by {
                    assert(all[k + 1] == rest[k]);
                    if k > 0 {
                        assert(all[k] == rest[k - 1]);
                    }
                }
            } else {
                assert(all == rest);
            }
        } else {
            lemma_split_ranges_ordered(d, i + 1, start);
            assert(all == split_from(d, i + 1, start));
        }
    } else if start < d.len() {
        assert(all == seq![(start, d.len() as int)]);
    } else {
        assert(all == Seq::<(int, int)>::empty());
    }
}

/// The NAL units of a frame are non-empty, in bounds, and appear in stream order
/// without overlapping.
pub proof fn lemma_nalu_ranges_well_formed(d: Seq<u8>)
    ensures
        forall|k: int|
            0 <= k < nalu_ranges(d).len() ==> 0 <= #[trigger] nalu_ranges(d)[k].0 < nalu_ranges(d)[k].1
                <= d.len(),
        forall|k: int|
            0 <= k < nalu_ranges(d).len() - 1 ==> #[trigger] nalu_ranges(d)[k].1 <= nalu_ranges(d)[k
                + 1].0,
{
    lemma_split_ranges_ordered(d, 0, 0);
}

/// Splits an Annex B frame into its NAL units (start codes removed).
pub fn split_nalus(data: &[u8]) -> (r: Vec<Vec<u8>>)
    ensures
        r@.len() == nalus_spec(data@).len(),
        forall|k: int| 0 <= k < r@.len() ==> #[trigger] r@[k]@ == nalus_spec(data@)[k],
{
    let ranges = nalu_ranges_of(data);
    proof {
        lemma_nalu_ranges_well_formed(data@);
        assert(ranges@.len() == nalu_ranges(data@).len()) by {
            assert(ranges@.map_values(|p: (usize, usize)| range_view(p)).len() == ranges@.len());
        }
    }
    let mut out: Vec<Vec<u8>> = Vec::new();
    let mut k: usize = 0;
    while k < ranges.len()
        invariant
            k <= ranges@.len(),
            ranges@.len() == nalu_ranges(data@).len(),
            ranges@.map_values(|p: (usize, usize)| range_view(p)) == nalu_ranges(data@),
            forall|j: int|
                0 <= j < nalu_ranges(data@).len() ==> 0 <= #[trigger] nalu_ranges(data@)[j].0
                    < nalu_ranges(data@)[j].1 <= data@.len(),
            out@.len() == k,
            forall|j: int| 0 <= j < k ==> #[trigger] out@[j]@ == nalus_spec(data@)[j],
        decreases ranges@.len() - k,
    {
        let (s, e) = ranges[k];
        proof {
            assert(range_view(ranges@[k as int]) == nalu_ranges(data@)[k as int]);
        }
        let piece = slice_to_vec(slice_subrange(data, s, e));
        out.push(piece);
        k = k + 1;
    }
    out
}

/// The most recent (last) non-empty NAL unit of type `t`, if any.
pub open spec fn last_unit_of_type(ns: Seq<Seq<u8>>, t: u8) -> Option<Seq<u8>>
    decreases ns.len(),
{
    if ns.len() == 0 {
        None
    } else if ns.last().len() > 0 && nal_type_of(ns.last()[0]) == t {
        Some(ns.last())
    } else {
        last_unit_of_type(ns.drop_last(), t)
    }
}

pub open spec fn opt_bytes_view(o: Option<Vec<u8>>) -> Option<Seq<u8>> {
    match o {
        Some(v) => Some(v@),
        None => None,
    }
}

/// Returns a copy of the last non-empty NAL unit whose type is `t`.
pub fn last_unit_with_type(nalus: &Vec<Vec<u8>>, t: u8) -> (r: Option<Vec<u8>>)
    ensures
        opt_bytes_view(r) == last_unit_of_type(nalus@.map_values(|v: Vec<u8>| v@), t),
{
    let ghost ns = nalus@.map_values(|v: Vec<u8>| v@);
    let mut cur: Option<Vec<u8>> = None;
    let mut k: usize = 0;
    while k < nalus.len()
        invariant
            k <= nalus@.len(),
            ns == nalus@.map_values(|v: Vec<u8>| v@),
            opt_bytes_view(cur) == last_unit_of_type(ns.take(k as int), t),
        decreases nalus@.len() - k,
    {
        proof {
            assert(ns.take(k + 1).drop_last() == ns.take(k as int));
            assert(ns.take(k + 1).last() == nalus@[k as int]@);
        }
        let n = &nalus[k];
        if n.len() > 0 && nal_type(n[0]) == t {
            cur = Some(slice_to_vec(n.as_slice()));
        }
        k = k + 1;
    }
    proof {
        assert(ns.take(nalus@.len() as int) == ns);
    }
    cur
}

/// Two bytes holding `v` in big-endian order.
pub open spec fn be16(v: int) -> Seq<u8> {
    seq![(v / 256) as u8, (v % 256) as u8]
}

/// A STAP-A aggregation packet payload carrying an SPS and a PPS: the header
/// byte `0x78`, then each unit preceded by its length truncated to 16 bits.
pub open spec fn stap_a_spec(sps: Seq<u8>, pps: Seq<u8>) -> Seq<u8> {
    seq![0x78u8] + be16(sps.len() as int % 65536) + sps + be16(pps.len() as int % 65536) + pps
}

fn push_be16(out: &mut Vec<u8>, n: usize)
    ensures
        final(out)@ == old(out)@ + be16(n as int % 65536),
{
    let t = n % 65536;
    out.push((t / 256) as u8);
    out.push((t % 256) as u8);
    assert(final(out)@ == old(out)@ + be16(n as int % 65536));
}

/// Builds the STAP-A payload that carries the parameter sets ahead of an IDR frame.
pub fn build_stap_a(sps: &[u8], pps: &[u8]) -> (r: Vec<u8>)
    ensures
        r@ == stap_a_spec(sps@, pps@),
{
    let mut stap: Vec<u8> = Vec::new();
    stap.push(0x78);
    push_be16(&mut stap, sps.len());
    stap.extend_from_slice(sps);
    push_be16(&mut stap, pps.len());
    stap.extend_from_slice(pps);
    assert(stap@ == stap_a_spec(sps@, pps@));
    stap
}

} // verus!
