//! The run-length codec: one encoded frame in, interlaced bytes out.
//!
//! A frame starts with a 64-byte header: a little-endian `u32` segment count,
//! then the little-endian `u32` offset at which each segment begins. Each
//! segment is compressed on its own as a sequence of runs; the decoded
//! segments are byte planes that are woven back together.

use vstd::prelude::*;
use vstd::arithmetic::div_mod::lemma_fundamental_div_mod_converse;
use vstd::slice::slice_subrange;
use crate::error::{DecodeError, DecodeErrorView};

verus! {

/// The length in bytes of the header of an encoded frame.
pub const HEADER_LEN: usize = 64;

/// The largest number of segment offsets that is read from a header.
pub const MAX_SEGMENTS: u32 = 16;

/// The little-endian 32-bit number held by the four bytes of `data` from `at`.
pub open spec fn le_u32(data: Seq<u8>, at: int) -> int {
    data[at] + 256 * data[at + 1] + 65536 * data[at + 2] + 16777216 * data[at + 3]
}

/// The number of offsets that are read from the header of `data`: the segment
/// count it declares, but no more than [`MAX_SEGMENTS`].
pub open spec fn offset_count(data: Seq<u8>) -> int {
    if le_u32(data, 0) > MAX_SEGMENTS {
        MAX_SEGMENTS as int
    } else {
        le_u32(data, 0)
    }
}

/// Whether `data` starts with a usable header: it holds the 64 bytes of one,
/// declares at least one segment, and holds every offset that is read.
///
/// The sixteenth offset lies behind the 64 bytes, so a frame that declares
/// sixteen segments or more has to hold 68 bytes.
pub open spec fn header_ok(data: Seq<u8>) -> bool {
    &&& data.len() >= HEADER_LEN
    &&& le_u32(data, 0) != 0
    &&& data.len() >= 4 + 4 * offset_count(data)
}

/// The segment offsets in the header of `data`, in the order of the segments.
pub open spec fn header_offsets(data: Seq<u8>) -> Seq<int> {
    Seq::new(offset_count(data) as nat, |i: int| le_u32(data, 4 + 4 * i))
}

/// Reads the little-endian 32-bit number at `at`.
fn read_le_u32(data: &Vec<u8>, at: usize) -> (r: u32)
    requires
        at + 4 <= data.len(),
    ensures
        r == le_u32(data@, at as int),
{
    let b0: u32 = data[at] as u32;
    let b1: u32 = data[at + 1] as u32;
    let b2: u32 = data[at + 2] as u32;
    let b3: u32 = data[at + 3] as u32;
    b0 + 256 * b1 + 65536 * b2 + 16777216 * b3
}

/// Reads the segment offsets from the header of an encoded frame.
///
/// Fails with `MalformedHeader` exactly when [`header_ok`] does not hold: the
/// buffer is shorter than 64 bytes, declares no segment, or ends before the
/// last offset that is read. A segment count above 16 is not an error: the
/// first 16 offsets are returned.
pub fn decode_header(pixel_data: &Vec<u8>) -> (r: Result<Vec<usize>, DecodeError>)
    ensures
        match r {
            Ok(offsets) => {
                &&& header_ok(pixel_data@)
                &&& offsets@.len() == offset_count(pixel_data@)
                &&& offsets@.map_values(|o: usize| o as int) == header_offsets(pixel_data@)
            },
            Err(e) => !header_ok(pixel_data@) && e@ == DecodeErrorView::MalformedHeader,
        },
{
    if pixel_data.len() < HEADER_LEN {
        return Err(DecodeError::MalformedHeader);
    }
    let nb_segments: u32 = read_le_u32(pixel_data, 0);
    if nb_segments == 0 {
        return Err(DecodeError::MalformedHeader);
    }
    let n: usize = if nb_segments > MAX_SEGMENTS {
        MAX_SEGMENTS as usize
    } else {
        nb_segments as usize
    };
    if pixel_data.len() < 4 + 4 * n {
        return Err(DecodeError::MalformedHeader);
    }
    let mut offsets: Vec<usize> = Vec::new();
    let mut i: usize = 0;
    while i < n
        invariant
            i <= n <= 16,
            n == offset_count(pixel_data@),
            4 + 4 * n <= pixel_data.len(),
            offsets@.len() == i,
            forall|k: int| 0 <= k < i ==> offsets@[k] as int == le_u32(pixel_data@, 4 + 4 * k),
        decreases n - i,
    {
        let o: u32 = read_le_u32(pixel_data, 4 + 4 * i);
        offsets.push(o as usize);
        i = i + 1;
    }
    assert(offsets@.map_values(|o: usize| o as int) =~= header_offsets(pixel_data@));
    Ok(offsets)
}

/// The length of the replicate run that the control byte `byte` announces, for
/// a byte above 128: with `control = byte + 1`, it is `3 + (255 - control)`,
/// from 128 for the byte 129 down to 2 for the byte 255.
pub open spec fn replicate_len(byte: u8) -> int {
    257 - byte
}

/// The length of the literal run that the control byte `byte` announces, for a
/// byte below 128: `control = byte + 1`, from 1 to 128.
pub open spec fn literal_len(byte: u8) -> int {
    byte + 1
}

/// What the runs of `data` from position `at` decode to.
///
/// A run starts with a control byte. Above 128 it announces a replicate run:
/// the byte that follows is repeated [`replicate_len`] times. Below 128 it
/// announces a literal run: the [`literal_len`] bytes that follow are copied.
/// Decoding ends, with what was decoded before, where fewer than two bytes
/// are left, where a literal run is longer than what is left, and at the
/// control byte 128, for which no run is defined.
pub open spec fn runs_from(data: Seq<u8>, at: int) -> Seq<u8>
    decreases data.len() - at,
{
    if at < 0 || at + 1 >= data.len() {
        Seq::empty()
    } else if data[at] > 128 {
        Seq::new(replicate_len(data[at]) as nat, |k: int| data[at + 1]) + runs_from(data, at + 2)
    } else if data[at] < 128 {
        if at + 1 + literal_len(data[at]) > data.len() {
            Seq::empty()
        } else {
            data.subrange(at + 1, at + 1 + literal_len(data[at])) + runs_from(
                data,
                at + 1 + literal_len(data[at]),
            )
        }
    } else {
        Seq::empty()
    }
}

/// What one encoded segment decodes to.
pub open spec fn decoded_segment(data: Seq<u8>) -> Seq<u8> {
    runs_from(data, 0)
}

/// Decodes one segment, run by run.
///
/// Never fails: a segment that ends inside a run, or holds the undefined
/// control byte 128, yields what was decoded up to there.
pub fn decode_segment(segment_data: &[u8]) -> (r: Result<Vec<u8>, DecodeError>)
    ensures
        r matches Ok(decoded) && decoded@ == decoded_segment(segment_data@),
{
    let n: usize = segment_data.len();
    let mut decoded: Vec<u8> = Vec::new();
    let mut i: usize = 0;
    loop
        invariant
            n == segment_data@.len(),
            i <= n,
            decoded@ + runs_from(segment_data@, i as int) == decoded_segment(segment_data@),
        ensures
            decoded@ == decoded_segment(segment_data@),
        decreases n - i,
    {
        if n - i < 2 {
            break ;
        }
        let control: u8 = segment_data[i];
        if control > 128 {
            let count: usize = 257 - control as usize;
            let rep_byte: u8 = segment_data[i + 1];
            let ghost before = decoded@;
            let mut k: usize = 0;
            while k < count
                invariant
                    k <= count,
                    decoded@ == before + Seq::new(k as nat, |j: int| rep_byte),
                decreases count - k,
            {
                decoded.push(rep_byte);
                k = k + 1;
            }
            assert(decoded@ + runs_from(segment_data@, i + 2) == before + runs_from(
                segment_data@,
                i as int,
            ));
            i = i + 2;
        } else if control < 128 {
            let count: usize = control as usize + 1;
            if n - i - 1 < count {
                break ;
            }
            let ghost before = decoded@;
            let mut k: usize = 0;
            while k < count
                invariant
                    k <= count,
                    i + 1 + count <= n,
                    n == segment_data@.len(),
                    decoded@ == before + segment_data@.subrange(i + 1, i + 1 + k),
                decreases count - k,
            {
                decoded.push(segment_data[i + 1 + k]);
                k = k + 1;
            }
            assert(decoded@ + runs_from(segment_data@, i + 1 + count) == before + runs_from(
                segment_data@,
                i as int,
            ));
            i = i + 1 + count;
        } else {
            break ;
        }
    }
    Ok(decoded)
}

/// A header that declares more than 16 segments is not refused for that:
/// in a frame that holds the sixteenth offset, 16 offsets are read.
pub proof fn segment_count_is_clamped(data: Seq<u8>)
    requires
        data.len() >= 4 + 4 * MAX_SEGMENTS,
        le_u32(data, 0) > MAX_SEGMENTS,
    ensures
        header_ok(data),
        header_offsets(data).len() == MAX_SEGMENTS,
{
}

/// Whether the runs of `data` from position `at` are whole up to position
/// `end`, where one of them ends.
pub open spec fn runs_reach(data: Seq<u8>, at: int, end: int) -> bool
    decreases data.len() - at,
{
    if at == end {
        true
    } else if at < 0 || at > end || at + 1 >= data.len() {
        false
    } else if data[at] > 128 {
        runs_reach(data, at + 2, end)
    } else if data[at] < 128 {
        at + 1 + literal_len(data[at]) <= data.len() && runs_reach(
            data,
            at + 1 + literal_len(data[at]),
            end,
        )
    } else {
        false
    }
}

/// Runs are whole only up to a position that is not before their start.
proof fn reach_is_forward(data: Seq<u8>, at: int, end: int)
    requires
        runs_reach(data, at, end),
    ensures
        at <= end,
{
}

/// Whole runs decode by themselves: where the runs from `at` are whole up to
/// `end`, what `data` decodes to from `at` is what its first `end` bytes
/// decode to from `at`, followed by what `data` decodes to from `end`.
pub proof fn whole_runs_decode_alone(data: Seq<u8>, at: int, end: int)
    requires
        0 <= at,
        end <= data.len(),
        runs_reach(data, at, end),
    ensures
        runs_from(data, at) == runs_from(data.take(end), at) + runs_from(data, end),
    decreases data.len() - at,
{
    let head = data.take(end);
    if at == end {
        assert(runs_from(head, at) == Seq::<u8>::empty());
        assert(Seq::<u8>::empty() + runs_from(data, end) == runs_from(data, end));
    } else if data[at] > 128 {
        reach_is_forward(data, at + 2, end);
        whole_runs_decode_alone(data, at + 2, end);
        assert(head[at] == data[at] && head[at + 1] == data[at + 1]);
        let run = Seq::new(replicate_len(data[at]) as nat, |k: int| data[at + 1]);
        assert(run == Seq::new(replicate_len(head[at]) as nat, |k: int| head[at + 1]));
        assert(runs_from(head, at) == run + runs_from(head, at + 2));
        assert(run + (runs_from(head, at + 2) + runs_from(data, end)) == (run + runs_from(
            head,
            at + 2,
        )) + runs_from(data, end));
    } else {
        let next = at + 1 + literal_len(data[at]);
        reach_is_forward(data, next, end);
        whole_runs_decode_alone(data, next, end);
        assert(head[at] == data[at]);
        let run = data.subrange(at + 1, next);
        assert(run == head.subrange(at + 1, next));
        assert(runs_from(head, at) == run + runs_from(head, next));
        assert(run + (runs_from(head, next) + runs_from(data, end)) == (run + runs_from(
            head,
            next,
        )) + runs_from(data, end));
    }
}

/// Runs that are whole in a segment are whole in any segment that starts
/// with it.
proof fn reach_extends(head: Seq<u8>, tail: Seq<u8>, at: int, end: int)
    requires
        0 <= at,
        end <= head.len(),
        runs_reach(head, at, end),
    ensures
        runs_reach(head + tail, at, end),
    decreases head.len() - at,
{
    let data = head + tail;
    if at != end {
        assert(data[at] == head[at]);
        if head[at] > 128 {
            reach_is_forward(head, at + 2, end);
            reach_extends(head, tail, at + 2, end);
        } else {
            let next = at + 1 + literal_len(head[at]);
            reach_is_forward(head, next, end);
            reach_extends(head, tail, next, end);
        }
    }
}

/// Decoding does not look back: behind `head`, the runs of `tail` decode as
/// they do in `tail` alone.
proof fn runs_do_not_look_back(head: Seq<u8>, tail: Seq<u8>, at: int)
    requires
        0 <= at,
    ensures
        runs_from(head + tail, head.len() + at) == runs_from(tail, at),
    decreases tail.len() - at,
{
    let data = head + tail;
    let from = head.len() + at;
    if at + 1 < tail.len() {
        assert(data[from] == tail[at]);
        assert(data[from + 1] == tail[at + 1]);
        if tail[at] > 128 {
            runs_do_not_look_back(head, tail, at + 2);
            assert(Seq::new(replicate_len(data[from]) as nat, |k: int| data[from + 1])
                == Seq::new(replicate_len(tail[at]) as nat, |k: int| tail[at + 1]));
        } else if tail[at] < 128 {
            let len = literal_len(tail[at]);
            if at + 1 + len <= tail.len() {
                runs_do_not_look_back(head, tail, at + 1 + len);
                assert(data.subrange(from + 1, from + 1 + len) == tail.subrange(
                    at + 1,
                    at + 1 + len,
                ));
            }
        }
    }
}

/// Segments decode piece by piece: where `head` is made of whole runs, what
/// `head` followed by `tail` decodes to is what `head` decodes to, followed
/// by what `tail` decodes to.
pub proof fn runs_decode_in_sequence(head: Seq<u8>, tail: Seq<u8>)
    requires
        runs_reach(head, 0, head.len() as int),
    ensures
        decoded_segment(head + tail) == decoded_segment(head) + decoded_segment(tail),
{
    let data = head + tail;
    reach_extends(head, tail, 0, head.len() as int);
    whole_runs_decode_alone(data, 0, head.len() as int);
    assert(data.take(head.len() as int) == head);
    runs_do_not_look_back(head, tail, 0);
}

/// A literal run decodes to the bytes it carries: from 1 to 128 bytes behind
/// the control byte that is their number less one.
pub proof fn literal_run_decodes(bytes: Seq<u8>)
    requires
        1 <= bytes.len() <= 128,
    ensures
        runs_reach(seq![(bytes.len() - 1) as u8] + bytes, 0, bytes.len() as int + 1),
        decoded_segment(seq![(bytes.len() - 1) as u8] + bytes) == bytes,
{
    let run = seq![(bytes.len() - 1) as u8] + bytes;
    let end: int = bytes.len() as int + 1;
    assert(run[0] == (bytes.len() - 1) as u8);
    assert(run.subrange(1, end) == bytes);
    assert(runs_from(run, end) == Seq::<u8>::empty());
    assert(bytes + Seq::<u8>::empty() == bytes);
    assert(runs_reach(run, end, end));
}

/// A replicate run decodes to its byte, repeated: from 2 to 128 times for
/// the control byte that is 257 less that number.
pub proof fn replicate_run_decodes(byte: u8, count: int)
    requires
        2 <= count <= 128,
    ensures
        runs_reach(seq![(257 - count) as u8, byte], 0, 2),
        decoded_segment(seq![(257 - count) as u8, byte]) == Seq::new(count as nat, |k: int| byte),
{
    let run = seq![(257 - count) as u8, byte];
    assert(run[0] == (257 - count) as u8 && run[1] == byte);
    assert(runs_from(run, 2) == Seq::<u8>::empty());
    let repeated = Seq::new(count as nat, |k: int| byte);
    assert(Seq::new(replicate_len(run[0]) as nat, |k: int| run[1]) == repeated);
    assert(repeated + Seq::<u8>::empty() == repeated);
    assert(runs_reach(run, 2, 2));
}

/// A literal run that announces more bytes than the segment has left ends
/// the decoding without a failure, and what was decoded before it is kept:
/// the segment decodes to what its bytes before that run decode to.
pub proof fn truncated_literal_keeps_what_was_decoded(data: Seq<u8>, at: int)
    requires
        0 <= at,
        at + 1 < data.len(),
        runs_reach(data, 0, at),
        data[at] < 128,
        at + 1 + literal_len(data[at]) > data.len(),
    ensures
        runs_from(data, at) == Seq::<u8>::empty(),
        decoded_segment(data) == decoded_segment(data.take(at)),
{
    whole_runs_decode_alone(data, 0, at);
    assert(runs_from(data.take(at), 0) + Seq::<u8>::empty() == runs_from(data.take(at), 0));
}

/// Where segment `i` of the frame `data` ends: at the offset of the next
/// segment, or at the end of the frame for the last one.
pub open spec fn segment_end(data: Seq<u8>, i: int) -> int {
    if i + 1 < offset_count(data) {
        header_offsets(data)[i + 1]
    } else {
        data.len() as int
    }
}

/// Whether every segment of `data` lies in the frame: no segment begins
/// behind its end, and none ends behind the end of the frame.
pub open spec fn segments_in_bounds(data: Seq<u8>) -> bool {
    forall|i: int|
        0 <= i < offset_count(data) ==> #[trigger] header_offsets(data)[i] <= segment_end(data, i)
            <= data.len()
}

/// The encoded bytes of segment `i` of the frame `data`.
pub open spec fn segment_bytes(data: Seq<u8>, i: int) -> Seq<u8> {
    data.subrange(header_offsets(data)[i], segment_end(data, i))
}

/// The segments of the frame `data`, each decoded on its own.
pub open spec fn decoded_segments(data: Seq<u8>) -> Seq<Seq<u8>> {
    Seq::new(offset_count(data) as nat, |i: int| decoded_segment(segment_bytes(data, i)))
}

/// The length of the shortest of `planes`, 0 where there is none.
pub open spec fn shortest_len(planes: Seq<Seq<u8>>) -> nat
    decreases planes.len(),
{
    if planes.len() == 0 {
        0
    } else if planes.len() == 1 {
        planes[0].len()
    } else if planes.last().len() < shortest_len(planes.drop_last()) {
        planes.last().len()
    } else {
        shortest_len(planes.drop_last())
    }
}

/// The byte planes woven together: byte `k` of every plane in turn, for each
/// `k` below the length of the shortest plane. With `n` planes, the byte at
/// `k * n + s` is byte `k` of plane `s`.
pub open spec fn interlaced(planes: Seq<Seq<u8>>) -> Seq<u8> {
    Seq::new(
        shortest_len(planes) * planes.len(),
        |j: int| planes[j % (planes.len() as int)][j / (planes.len() as int)],
    )
}

/// What an encoded frame decodes to: its segments, decoded and interlaced, or
/// `MalformedHeader` where the header cannot be used or a segment does not
/// lie in the frame.
pub open spec fn rle_decoded(data: Seq<u8>) -> Result<Seq<u8>, DecodeErrorView> {
    if header_ok(data) && segments_in_bounds(data) {
        Ok(interlaced(decoded_segments(data)))
    } else {
        Err(DecodeErrorView::MalformedHeader)
    }
}

/// No plane is shorter than [`shortest_len`], and one plane has that length.
pub proof fn shortest_len_is_least(planes: Seq<Seq<u8>>)
    ensures
        forall|s: int| 0 <= s < planes.len() ==> shortest_len(planes) <= #[trigger] planes[s].len(),
        planes.len() > 0 ==> exists|s: int|
            0 <= s < planes.len() && shortest_len(planes) == #[trigger] planes[s].len(),
    decreases planes.len(),
{
    if planes.len() > 1 {
        let front = planes.drop_last();
        shortest_len_is_least(front);
        assert forall|s: int| 0 <= s < planes.len() implies shortest_len(planes)
            <= #[trigger] planes[s].len() by {
            if s < front.len() {
                assert(front[s] == planes[s]);
            }
        }
        let w = choose|s: int| 0 <= s < front.len() && shortest_len(front) == #[trigger] front[s].len();
        assert(front[w] == planes[w]);
        if planes.last().len() < shortest_len(front) {
            assert(shortest_len(planes) == planes[planes.len() - 1].len());
        } else {
            assert(shortest_len(planes) == planes[w].len());
        }
    } else if planes.len() == 1 {
        assert(shortest_len(planes) == planes[0].len());
    }
}

/// Interlacing puts byte `k` of plane `s` at position `k * n + s`, where `n`
/// is the number of planes.
pub proof fn interlaced_at(planes: Seq<Seq<u8>>, k: int, s: int)
    requires
        0 <= k < shortest_len(planes),
        0 <= s < planes.len(),
    ensures
        0 <= k * planes.len() + s < interlaced(planes).len(),
        interlaced(planes)[k * planes.len() + s] == planes[s][k],
{
    let n = planes.len() as int;
    let total = shortest_len(planes) * planes.len();
    assert(0 <= k * n + s < total) by (nonlinear_arith)
        requires
            0 <= k < shortest_len(planes),
            0 <= s < n,
            total == shortest_len(planes) * n,
    ;
    lemma_fundamental_div_mod_converse(k * n + s, n, k, s);
}

/// The length of the shortest of the decoded segments.
fn shortest_plane(planes: &Vec<Vec<u8>>) -> (r: usize)
    ensures
        r == shortest_len(planes@.map_values(|p: Vec<u8>| p@)),
{
    let ghost views = planes@.map_values(|p: Vec<u8>| p@);
    if planes.len() == 0 {
        return 0;
    }
    let mut shortest: usize = planes[0].len();
    let mut i: usize = 1;
    assert(views.take(1).len() == 1 && views.take(1)[0] == views[0]);
    while i < planes.len()
        invariant
            1 <= i <= planes.len(),
            views == planes@.map_values(|p: Vec<u8>| p@),
            shortest == shortest_len(views.take(i as int)),
        decreases planes.len() - i,
    {
        assert(views.take(i + 1).drop_last() == views.take(i as int));
        assert(views.take(i + 1).last() == planes@[i as int]@);
        if planes[i].len() < shortest {
            shortest = planes[i].len();
        }
        i = i + 1;
    }
    assert(views.take(i as int) == views);
    shortest
}

/// Decodes one run-length encoded frame.
///
/// The header is read, each segment is decoded on its own, and the decoded
/// segments are interlaced up to the length of the shortest. Fails with
/// `MalformedHeader` exactly when the header cannot be used or a segment does
/// not lie in the frame; see [`rle_decoded`].
#[allow(non_snake_case)]
pub fn decode_RLE(bytes: &Vec<u8>) -> (r: Result<Vec<u8>, DecodeError>)
    ensures
        match r {
            Ok(decoded) => rle_decoded(bytes@) == Ok::<Seq<u8>, DecodeErrorView>(decoded@),
            Err(e) => rle_decoded(bytes@) == Err::<Seq<u8>, DecodeErrorView>(e@),
        },
{
    let offsets = match decode_header(bytes) {
        Ok(offsets) => offsets,
        Err(e) => {
            return Err(e);
        },
    };
    let n: usize = offsets.len();
    let ghost offs = header_offsets(bytes@);
    let ghost segs = decoded_segments(bytes@);
    let mut planes: Vec<Vec<u8>> = Vec::new();
    let mut i: usize = 0;
    while i < n
        invariant
            i <= n,
            n == offsets@.len(),
            n == offset_count(bytes@),
            header_ok(bytes@),
            offs == header_offsets(bytes@),
            offsets@.map_values(|o: usize| o as int) == offs,
            segs == decoded_segments(bytes@),
            planes@.len() == i,
            forall|j: int| 0 <= j < i ==> #[trigger] offs[j] <= segment_end(bytes@, j) <= bytes@.len(),
            forall|j: int| 0 <= j < i ==> (#[trigger] planes@[j])@ == segs[j],
        decreases n - i,
    {
        assert(offsets@[i as int] as int == offs[i as int]);
        let begin: usize = offsets[i];
        let end: usize = if i + 1 < n {
            assert(offsets@[i + 1] as int == offs[i + 1]);
            offsets[i + 1]
        } else {
            bytes.len()
        };
        assert(end == segment_end(bytes@, i as int));
        if begin > end || end > bytes.len() {
            assert(!(offs[i as int] <= segment_end(bytes@, i as int) <= bytes@.len()));
            return Err(DecodeError::MalformedHeader);
        }
        let decoded = match decode_segment(slice_subrange(bytes.as_slice(), begin, end)) {
            Ok(decoded) => decoded,
            Err(e) => {
                return Err(e);
            },
        };
        planes.push(decoded);
        i = i + 1;
    }
    let ghost views = planes@.map_values(|p: Vec<u8>| p@);
    assert(views =~= segs);
    let shortest: usize = shortest_plane(&planes);
    proof {
        shortest_len_is_least(views);
    }
    let mut out: Vec<u8> = Vec::new();
    let mut k: usize = 0;
    while k < shortest
        invariant
            k <= shortest,
            n == planes@.len(),
            n > 0,
            views == planes@.map_values(|p: Vec<u8>| p@),
            shortest == shortest_len(views),
            forall|s: int| 0 <= s < n ==> shortest <= (#[trigger] planes@[s])@.len(),
            out@.len() == k * n,
            forall|j: int|
                0 <= j < out@.len() ==> out@[j] == views[j % (n as int)][j / (n as int)],
        decreases shortest - k,
    {
        let mut s: usize = 0;
        while s < n
            invariant
                k < shortest,
                s <= n,
                n == planes@.len(),
                n > 0,
                views == planes@.map_values(|p: Vec<u8>| p@),
                forall|s: int| 0 <= s < n ==> shortest <= (#[trigger] planes@[s])@.len(),
                out@.len() == k * n + s,
                forall|j: int|
                    0 <= j < out@.len() ==> out@[j] == views[j % (n as int)][j / (n as int)],
            decreases n - s,
        {
            proof {
                lemma_fundamental_div_mod_converse(k * n + s, n as int, k as int, s as int);
            }
            out.push(planes[s][k]);
            s = s + 1;
        }
        assert((k + 1) * n == k * n + n) by (nonlinear_arith);
        k = k + 1;
    }
    assert(out@ =~= interlaced(views));
    Ok(out)
}

} // verus!
