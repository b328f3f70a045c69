//! Reading the NAL units of a length-prefixed (AVCC) H.264 bitstream.
use vstd::prelude::*;
use bytes::Bytes;

use crate::avc::AvcError;
use crate::buf::bytes_view;
use crate::buf::be_value;
use crate::buf::bytes_new;
use crate::buf::bytes_get_uint;
use crate::buf::bytes_remaining;
use crate::buf::bytes_split_to;
use crate::nal::Unit;
use crate::nal::UnitView;
use crate::nal::parse_unit_spec;
use crate::nal::unit_header_forbidden;
use crate::nal::unit_result_view;
use crate::nal::header_forbidden;
use crate::nal::unit_bytes;
use crate::nal::lemma_unit_write_parse;

verus! {

/// One step of reading a stream: the item produced (none at the end of the
/// stream), the input left over, and whether the unit read has its
/// forbidden bit set (on which the parser stops the program).
pub struct StreamStep {
    pub item: Option<Result<UnitView, AvcError>>,
    pub rest: Seq<u8>,
    pub aborts: bool,
}

/// The length field at the front of `s`, as the reader converts it.
pub open spec fn length_field(s: Seq<u8>, nalu_size: nat) -> usize {
    (be_value(s.take(nalu_size as int)) as u64) as usize
}

/// Reads one length-prefixed unit from the front of `s`. A stream cut short
/// inside a length field yields an error and ends the stream; one cut short
/// inside a unit yields an error after the length field was consumed.
pub open spec fn stream_step(s: Seq<u8>, nalu_size: nat) -> StreamStep {
    if s.len() == 0 {
        StreamStep { item: None, rest: s, aborts: false }
    } else if s.len() < nalu_size {
        StreamStep { item: Some(Err(AvcError::NotEnoughData)), rest: Seq::empty(), aborts: false }
    } else {
        let len = length_field(s, nalu_size);
        let t = s.skip(nalu_size as int);
        if t.len() < len {
            StreamStep { item: Some(Err(AvcError::NotEnoughData)), rest: t, aborts: false }
        } else {
            let unit = t.take(len as int);
            StreamStep {
                item: Some(parse_unit_spec(unit)),
                rest: t.skip(len as int),
                aborts: unit_header_forbidden(unit),
            }
        }
    }
}

/// Every item of the stream, in order.
pub open spec fn read_stream_spec(s: Seq<u8>, nalu_size: nat) -> Seq<Result<UnitView, AvcError>>
    decreases s.len(),
{
    let st = stream_step(s, nalu_size);
    match st.item {
        None => Seq::empty(),
        Some(item) => if st.rest.len() < s.len() {
            seq![item] + read_stream_spec(st.rest, nalu_size)
        } else {
            seq![item]
        },
    }
}

/// Whether reading the whole stream meets a unit with the forbidden bit set.
pub open spec fn stream_aborts(s: Seq<u8>, nalu_size: nat) -> bool
    decreases s.len(),
{
    let st = stream_step(s, nalu_size);
    match st.item {
        None => false,
        Some(_) => st.aborts || (st.rest.len() < s.len() && stream_aborts(st.rest, nalu_size)),
    }
}

/// An optional parse result seen as plain values.
pub open spec fn item_view(r: Option<Result<Unit, AvcError>>) -> Option<Result<UnitView, AvcError>> {
    match r {
        None => None,
        Some(x) => Some(unit_result_view(x)),
    }
}

/// The results of a vector, seen as plain values.
pub open spec fn results_view(v: Seq<Result<Unit, AvcError>>) -> Seq<Result<UnitView, AvcError>> {
    v.map_values(|x: Result<Unit, AvcError>| unit_result_view(x))
}

/// A step consumes input, for a length field of at least one byte.
proof fn lemma_step_progress(s: Seq<u8>, nalu_size: nat)
    requires
        nalu_size >= 1,
        stream_step(s, nalu_size).item is Some,
    ensures
        stream_step(s, nalu_size).rest.len() < s.len(),
{
}

/// Reads the next unit of the stream from the front of `bytes`.
pub fn read_next(bytes: &mut Bytes, nalu_size: usize) -> (r: Option<Result<Unit, AvcError>>)
    requires
        nalu_size <= 8,
        !stream_step(bytes_view(*old(bytes)), nalu_size as nat).aborts,
    ensures
        item_view(r) == stream_step(bytes_view(*old(bytes)), nalu_size as nat).item,
        bytes_view(*final(bytes)) == stream_step(bytes_view(*old(bytes)), nalu_size as nat).rest,
{
    if bytes_remaining(bytes) == 0 {
        return None;
    }

    if bytes_remaining(bytes) < nalu_size {
        // make sure bytes is empty for next iteration:
        *bytes = bytes_new();
        return Some(Err(AvcError::NotEnoughData));
    }

    let nalu_length = bytes_get_uint(bytes, nalu_size) as usize;

    if bytes_remaining(bytes) < nalu_length {
        return Some(Err(AvcError::NotEnoughData));
    }

    let nalu_data = bytes_split_to(bytes, nalu_length);
    Some(Unit::parse(nalu_data))
}

/// Reads every unit of the stream, each preceded by a big-endian length of
/// `nalu_size` bytes.
pub fn read(bytes: Bytes, nalu_size: usize) -> (r: Vec<Result<Unit, AvcError>>)
    requires
        1 <= nalu_size <= 8,
        !stream_aborts(bytes_view(bytes), nalu_size as nat),
    ensures
        results_view(r@) == read_stream_spec(bytes_view(bytes), nalu_size as nat),
{
    let ghost s0 = bytes_view(bytes);
    let ghost n = nalu_size as nat;
    let mut bytes = bytes;
    let mut out: Vec<Result<Unit, AvcError>> = Vec::new();
    let mut done = false;
    assert(results_view(out@) =~= Seq::<Result<UnitView, AvcError>>::empty());
    while !done
        invariant
            1 <= nalu_size <= 8,
            n == nalu_size as nat,
            !stream_aborts(bytes_view(bytes), n),
            read_stream_spec(s0, n) == results_view(out@) + read_stream_spec(bytes_view(bytes), n),
            done ==> read_stream_spec(bytes_view(bytes), n) == Seq::<Result<UnitView, AvcError>>::empty(),
        decreases (if done { 0int } else { 1 + bytes_view(bytes).len() as int }),
    {
        let ghost s = bytes_view(bytes);
        match read_next(&mut bytes, nalu_size) {
            None => {
                done = true;
            },
            Some(item) => {
                proof {
                    lemma_step_progress(s, n);
                }
                let ghost before = out@;
                let ghost iv = unit_result_view(item);
                out.push(item);
                assert(results_view(out@) =~= results_view(before).push(iv));
                assert(read_stream_spec(s, n) == seq![iv] + read_stream_spec(bytes_view(bytes), n));
                assert(results_view(before) + read_stream_spec(s, n) =~= results_view(out@)
                    + read_stream_spec(bytes_view(bytes), n));
            },
        }
    }
    assert(results_view(out@) + Seq::<Result<UnitView, AvcError>>::empty() =~= results_view(out@));
    out
}

/// Whether reading the next unit from the front of `bytes` meets a unit
/// with the forbidden bit set.
pub fn step_aborts(bytes: &Bytes, nalu_size: usize) -> (r: bool)
    requires
        nalu_size <= 8,
    ensures
        r == stream_step(bytes_view(*bytes), nalu_size as nat).aborts,
{
    let mut b = bytes.clone();
    if bytes_remaining(&b) == 0 || bytes_remaining(&b) < nalu_size {
        return false;
    }
    let nalu_length = bytes_get_uint(&mut b, nalu_size) as usize;
    if bytes_remaining(&b) < nalu_length {
        return false;
    }
    let unit = bytes_split_to(&mut b, nalu_length);
    header_forbidden(&unit)
}

/// Whether reading the whole stream meets a unit with the forbidden bit set.
pub fn stream_aborts_at(bytes: &Bytes, nalu_size: usize) -> (r: bool)
    requires
        1 <= nalu_size <= 8,
    ensures
        r == stream_aborts(bytes_view(*bytes), nalu_size as nat),
{
    let ghost n = nalu_size as nat;
    let mut b = bytes.clone();
    loop
        invariant
            1 <= nalu_size <= 8,
            n == nalu_size as nat,
            stream_aborts(bytes_view(*bytes), n) == stream_aborts(bytes_view(b), n),
        decreases bytes_view(b).len(),
    {
        if step_aborts(&b, nalu_size) {
            return true;
        }
        let ghost s = bytes_view(b);
        match read_next(&mut b, nalu_size) {
            None => {
                return false;
            },
            Some(_) => {
                proof { lemma_step_progress(s, n); }
            },
        }
    }
}

/// Reads the next unit of the stream, unless it is one with the forbidden
/// bit set, on which [`read_next`] stops the program; that case gives `None`
/// and leaves `bytes` as it was.
pub fn read_next_checked(bytes: &mut Bytes, nalu_size: usize) -> (r: Option<Option<Result<Unit, AvcError>>>)
    requires
        nalu_size <= 8,
    ensures
        r is None <==> stream_step(bytes_view(*old(bytes)), nalu_size as nat).aborts,
        r is None ==> bytes_view(*final(bytes)) == bytes_view(*old(bytes)),
        r matches Some(x) ==> item_view(x) == stream_step(bytes_view(*old(bytes)), nalu_size as nat).item
            && bytes_view(*final(bytes)) == stream_step(bytes_view(*old(bytes)), nalu_size as nat).rest,
{
    if step_aborts(bytes, nalu_size) {
        None
    } else {
        Some(read_next(bytes, nalu_size))
    }
}

/// Reads every unit of the stream, unless one has the forbidden bit set, on
/// which [`read`] stops the program; that case gives `None`.
pub fn read_checked(bytes: Bytes, nalu_size: usize) -> (r: Option<Vec<Result<Unit, AvcError>>>)
    requires
        1 <= nalu_size <= 8,
    ensures
        r is None <==> stream_aborts(bytes_view(bytes), nalu_size as nat),
        r matches Some(v) ==> results_view(v@) == read_stream_spec(bytes_view(bytes), nalu_size as nat),
{
    if stream_aborts_at(&bytes, nalu_size) {
        None
    } else {
        Some(read(bytes, nalu_size))
    }
}

/// The number of values an `n`-byte field can hold: 256 to the power `n`.
pub open spec fn field_range(n: nat) -> nat
    decreases n,
{
    if n == 0 { 1 } else { 256 * field_range((n - 1) as nat) }
}

/// The `n`-byte big-endian encoding of `v`, most significant byte first.
pub open spec fn be_encode(v: nat, n: nat) -> Seq<u8>
    decreases n,
{
    if n == 0 {
        Seq::empty()
    } else {
        be_encode(v / 256, (n - 1) as nat).push((v % 256) as u8)
    }
}

proof fn lemma_be_encode_value(v: nat, n: nat)
    requires
        v < field_range(n),
    ensures
        be_encode(v, n).len() == n,
        be_value(be_encode(v, n)) == v,
    decreases n,
{
    if n > 0 {
        let q = v / 256;
        assert(q < field_range((n - 1) as nat)) by (nonlinear_arith)
            requires
                v < 256 * field_range((n - 1) as nat),
                q == v / 256;
        lemma_be_encode_value(q, (n - 1) as nat);
        let e = be_encode(v, n);
        assert(e.drop_last() =~= be_encode(q, (n - 1) as nat));
        assert(v == q * 256 + v % 256) by (nonlinear_arith)
            requires q == v / 256;
    }
}

/// One unit as a length-prefixed stream carries it: the length of its
/// encoding as an `n`-byte big-endian field, then the encoding.
pub open spec fn framed_unit(u: UnitView, n: nat) -> Seq<u8> {
    be_encode(unit_bytes(u).len(), n) + unit_bytes(u)
}

/// The units, one after the other, each framed for a stream with `n`-byte
/// length fields.
pub open spec fn framed_stream(us: Seq<UnitView>, n: nat) -> Seq<u8>
    decreases us.len(),
{
    if us.len() == 0 {
        Seq::empty()
    } else {
        framed_unit(us[0], n) + framed_stream(us.drop_first(), n)
    }
}

/// Units that a stream with `n`-byte length fields can carry: two-bit
/// `ref_idc`, and an encoding whose length the field holds.
pub open spec fn frames_fit(us: Seq<UnitView>, n: nat) -> bool {
    forall|i: int| 0 <= i < us.len() ==> {
        &&& (#[trigger] us[i]).ref_idc <= 3
        &&& unit_bytes(us[i]).len() < field_range(n)
        &&& unit_bytes(us[i]).len() <= usize::MAX
    }
}

/// Reading a stream of framed units gives the units back, each whole, in
/// order: every step takes the full value of its length field (however many
/// bytes it has) and exactly that many bytes of unit.
pub proof fn lemma_read_framed_stream(us: Seq<UnitView>, n: nat)
    requires
        1 <= n <= 8,
        frames_fit(us, n),
    ensures
        !stream_aborts(framed_stream(us, n), n),
        read_stream_spec(framed_stream(us, n), n) == us.map_values(|u: UnitView| Ok::<UnitView, AvcError>(u)),
    decreases us.len(),
{
    let s = framed_stream(us, n);
    if us.len() == 0 {
        assert(s.len() == 0);
        assert(read_stream_spec(s, n) =~= us.map_values(|u: UnitView| Ok::<UnitView, AvcError>(u)));
    } else {
        let u = us[0];
        let tail = us.drop_first();
        assert(frames_fit(tail, n)) by {
            assert forall|i: int| 0 <= i < tail.len() implies {
                &&& (#[trigger] tail[i]).ref_idc <= 3
                &&& unit_bytes(tail[i]).len() < field_range(n)
                &&& unit_bytes(tail[i]).len() <= usize::MAX
            } by {
                assert(tail[i] == us[i + 1]);
            }
        }
        lemma_read_framed_stream(tail, n);
        let ub = unit_bytes(u);
        let len = ub.len();
        assert(us[0].ref_idc <= 3 && len < field_range(n) && len <= usize::MAX);
        lemma_be_encode_value(len, n);
        lemma_unit_write_parse(u);
        let rest = framed_stream(tail, n);
        assert(s == be_encode(len, n) + ub + rest);
        assert(s.take(n as int) =~= be_encode(len, n));
        assert(length_field(s, n) == len);
        let t = s.skip(n as int);
        assert(t =~= ub + rest);
        assert(t.take(len as int) =~= ub);
        assert(t.skip(len as int) =~= rest);
        let st = stream_step(s, n);
        assert(st.item == Some(Ok::<UnitView, AvcError>(u)));
        assert(st.rest == rest);
        assert(!st.aborts);
        assert(rest.len() < s.len());
        assert(read_stream_spec(s, n) == seq![Ok::<UnitView, AvcError>(u)] + read_stream_spec(rest, n));
        assert(read_stream_spec(s, n) =~= us.map_values(|u: UnitView| Ok::<UnitView, AvcError>(u)));
    }
}

} // verus!
