//! The AVC decoder configuration record, which carries the parameter sets
//! an H.264 decoder needs before the first frame.
use vstd::prelude::*;
use bytes::Bytes;

use crate::avc::AvcError;
use crate::buf::bytes_view;
use crate::buf::be16_bytes;
use crate::buf::bytes_get_u8;
use crate::buf::bytes_get_u16;
use crate::buf::bytes_remaining;
use crate::buf::bytes_split_to;
use crate::nal::Unit;
use crate::nal::UnitView;
use crate::nal::unit_bytes;
use crate::nal::parse_unit_spec;
use crate::nal::unit_header_forbidden;
use crate::nal::unit_result_view;
use crate::nal::lemma_unit_write_parse;
use crate::nal::UnitType;
use crate::nal::header_forbidden;
use crate::buf::bytes_as_slice;

verus! {

/// AVC decoder configuration record
///
/// Bits | Name
/// ---- | ----
/// 8    | Version
/// 8    | Profile Indication
/// 8    | Profile Compatability
/// 8    | Level Indication
/// 6    | Reserved
/// 2    | NALU Length
/// 3    | Reserved
/// 5    | SPS Count
/// 16   | SPS Length
/// var  | SPS
/// 8    | PPS Count
/// 16   | PPS Length
/// var  | PPS
#[derive(Debug, Clone)]
pub struct DecoderConfigurationRecord {
    pub version: u8,
    pub profile_indication: u8,
    pub profile_compatibility: u8,
    pub level_indication: u8,
    pub nalu_size: u8,
    pub sps: Vec<Unit>,
    pub pps: Vec<Unit>,
}

/// A decoder configuration record seen as plain values.
pub struct DcrView {
    pub version: u8,
    pub profile_indication: u8,
    pub profile_compatibility: u8,
    pub level_indication: u8,
    pub nalu_size: u8,
    pub sps: Seq<UnitView>,
    pub pps: Seq<UnitView>,
}

/// The units of a vector, seen as plain values.
pub open spec fn units_view(v: Seq<Unit>) -> Seq<UnitView> {
    v.map_values(|u: Unit| u@)
}

impl View for DecoderConfigurationRecord {
    type V = DcrView;

    open spec fn view(&self) -> DcrView {
        DcrView {
            version: self.version,
            profile_indication: self.profile_indication,
            profile_compatibility: self.profile_compatibility,
            level_indication: self.level_indication,
            nalu_size: self.nalu_size,
            sps: units_view(self.sps@),
            pps: units_view(self.pps@),
        }
    }
}

/// What reading a counted list of length-prefixed units gives: the units or
/// an error, the input left over, and whether a unit header with the
/// forbidden bit set was met (on which the parser stops the program).
pub struct UnitsRead {
    pub units: Result<Seq<UnitView>, AvcError>,
    pub rest: Seq<u8>,
    pub aborts: bool,
}

/// Reads `count` units, each preceded by its length as two big-endian bytes.
pub open spec fn read_units_spec(s: Seq<u8>, count: nat) -> UnitsRead
    decreases count,
{
    if count == 0 {
        UnitsRead { units: Ok(Seq::empty()), rest: s, aborts: false }
    } else if s.len() < 2 {
        UnitsRead { units: Err(AvcError::NotEnoughData), rest: s, aborts: false }
    } else {
        let len = s[0] * 256 + s[1];
        let t = s.skip(2);
        if t.len() < len {
            UnitsRead { units: Err(AvcError::NotEnoughData), rest: t, aborts: false }
        } else {
            let unit = t.take(len);
            let after = t.skip(len);
            if unit_header_forbidden(unit) {
                UnitsRead { units: Err(AvcError::NotEnoughData), rest: after, aborts: true }
            } else {
                match parse_unit_spec(unit) {
                    Err(e) => UnitsRead { units: Err(e), rest: after, aborts: false },
                    Ok(u) => {
                        let r = read_units_spec(after, (count - 1) as nat);
                        UnitsRead {
                            units: match r.units {
                                Ok(us) => Ok(seq![u] + us),
                                Err(e) => Err(e),
                            },
                            rest: r.rest,
                            aborts: r.aborts,
                        }
                    },
                }
            }
        }
    }
}

/// The outcome of reading a list after `us` have already been read.
pub open spec fn after_units(us: Seq<UnitView>, r: UnitsRead) -> UnitsRead {
    UnitsRead {
        units: match r.units {
            Ok(vs) => Ok(us + vs),
            Err(e) => Err(e),
        },
        rest: r.rest,
        aborts: r.aborts,
    }
}

/// What parsing a decoder configuration record gives: the record or an
/// error, the input left over, and whether the parser stops the program.
pub struct DcrRead {
    pub result: Result<DcrView, AvcError>,
    pub rest: Seq<u8>,
    pub aborts: bool,
}

pub open spec fn parse_dcr_spec(s: Seq<u8>) -> DcrRead {
    if s.len() < 6 {
        DcrRead { result: Err(AvcError::NotEnoughData), rest: s, aborts: false }
    } else if s[0] != 1 {
        DcrRead {
            result: Err(AvcError::UnsupportedConfigurationRecordVersion(s[0])),
            rest: s.skip(1),
            aborts: false,
        }
    } else {
        let sps_read = read_units_spec(s.skip(6), (s[5] & 0x1f) as nat);
        if sps_read.aborts {
            DcrRead { result: Err(AvcError::NotEnoughData), rest: sps_read.rest, aborts: true }
        } else {
            match sps_read.units {
                Err(e) => DcrRead { result: Err(e), rest: sps_read.rest, aborts: false },
                Ok(sps) => {
                    let t = sps_read.rest;
                    if t.len() < 1 {
                        DcrRead { result: Err(AvcError::NotEnoughData), rest: t, aborts: false }
                    } else {
                        let pps_read = read_units_spec(t.skip(1), t[0] as nat);
                        if pps_read.aborts {
                            DcrRead {
                                result: Err(AvcError::NotEnoughData),
                                rest: pps_read.rest,
                                aborts: true,
                            }
                        } else {
                            match pps_read.units {
                                Err(e) => DcrRead {
                                    result: Err(e),
                                    rest: pps_read.rest,
                                    aborts: false,
                                },
                                Ok(pps) => DcrRead {
                                    result: Ok(
                                        DcrView {
                                            version: s[0],
                                            profile_indication: s[1],
                                            profile_compatibility: s[2],
                                            level_indication: s[3],
                                            nalu_size: ((s[4] & 0x03) + 1) as u8,
                                            sps,
                                            pps,
                                        },
                                    ),
                                    rest: pps_read.rest,
                                    aborts: false,
                                },
                            }
                        }
                    }
                },
            }
        }
    }
}

/// A parse result seen as plain values.
pub open spec fn dcr_result_view(r: Result<DecoderConfigurationRecord, AvcError>) -> Result<DcrView, AvcError> {
    match r {
        Ok(d) => Ok(d@),
        Err(e) => Err(e),
    }
}

/// The bytes written for one unit of a list: its size, then the unit.
pub open spec fn unit_entry_bytes(u: UnitView) -> Seq<u8> {
    be16_bytes((1 + u.data.len()) as u16) + unit_bytes(u)
}

/// The bytes written for a list of units, in order.
pub open spec fn units_bytes(us: Seq<UnitView>) -> Seq<u8>
    decreases us.len(),
{
    if us.len() == 0 {
        Seq::empty()
    } else {
        unit_entry_bytes(us[0]) + units_bytes(us.drop_first())
    }
}

/// The encoding of a decoder configuration record.
pub open spec fn dcr_bytes(d: DcrView) -> Seq<u8> {
    seq![
        d.version,
        d.profile_indication,
        d.profile_compatibility,
        d.level_indication,
        0xfcu8 | (((d.nalu_size - 1) as u8) & 0x03),
        0xe0u8 | ((d.sps.len() as u8) & 0x1f),
    ] + units_bytes(d.sps) + seq![d.pps.len() as u8] + units_bytes(d.pps)
}

proof fn lemma_units_bytes_push(us: Seq<UnitView>, u: UnitView)
    ensures
        units_bytes(us.push(u)) == units_bytes(us) + unit_entry_bytes(u),
    decreases us.len(),
{
    if us.len() == 0 {
        assert(us.push(u).drop_first() =~= Seq::<UnitView>::empty());
        assert(us.push(u)[0] == u);
        assert(units_bytes(Seq::<UnitView>::empty()) == Seq::<u8>::empty());
        assert(units_bytes(us.push(u)) == unit_entry_bytes(u) + units_bytes(Seq::<UnitView>::empty()));
        assert(units_bytes(us.push(u)) =~= units_bytes(us) + unit_entry_bytes(u));
    } else {
        lemma_units_bytes_push(us.drop_first(), u);
        assert(us.push(u).drop_first() =~= us.drop_first().push(u));
        assert(units_bytes(us.push(u)) =~= units_bytes(us) + unit_entry_bytes(u));
    }
}

proof fn lemma_after_units_step(us: Seq<UnitView>, u: UnitView, r: UnitsRead)
    ensures
        after_units(us, after_units(seq![u], r)) == after_units(us.push(u), r),
{
    match r.units {
        Ok(vs) => {
            assert(us + (seq![u] + vs) =~= us.push(u) + vs);
        },
        Err(e) => {},
    }
}

/// Reads `count` length-prefixed units from the front of `buf`.
fn read_units(buf: &mut Bytes, count: u8) -> (r: Result<Vec<Unit>, AvcError>)
    requires
        !read_units_spec(bytes_view(*old(buf)), count as nat).aborts,
    ensures
        ({
            let spec = read_units_spec(bytes_view(*old(buf)), count as nat);
            &&& bytes_view(*final(buf)) == spec.rest
            &&& match r {
                Ok(v) => spec.units == Ok::<Seq<UnitView>, AvcError>(units_view(v@)),
                Err(e) => spec.units == Err::<Seq<UnitView>, AvcError>(e),
            }
        }),
{
    let ghost s0 = bytes_view(*buf);
    let mut units: Vec<Unit> = Vec::new();
    let mut i: u8 = 0;
    assert(after_units(Seq::empty(), read_units_spec(s0, count as nat)) == read_units_spec(s0, count as nat)) by {
        match read_units_spec(s0, count as nat).units {
            Ok(vs) => { assert(Seq::<UnitView>::empty() + vs =~= vs); },
            Err(e) => {},
        }
    }
    while i < count
        invariant
            i <= count,
            s0 == bytes_view(*old(buf)),
            read_units_spec(s0, count as nat)
                == after_units(units_view(units@), read_units_spec(bytes_view(*buf), (count - i) as nat)),
            !read_units_spec(bytes_view(*buf), (count - i) as nat).aborts,
        decreases count - i,
    {
        let ghost s = bytes_view(*buf);
        let ghost n = (count - i) as nat;
        assert(n > 0);
        if bytes_remaining(buf) < 2 {
            assert(read_units_spec(s, n).units == Err::<Seq<UnitView>, AvcError>(AvcError::NotEnoughData));
            assert(read_units_spec(s, n).rest == s);
            assert(read_units_spec(s0, count as nat).rest == s);
            assert(read_units_spec(s0, count as nat).units == Err::<Seq<UnitView>, AvcError>(AvcError::NotEnoughData));
            return Err(AvcError::NotEnoughData);
        }

        let length = bytes_get_u16(buf) as usize;
        assert(length == s[0] * 256 + s[1]);

        if bytes_remaining(buf) < length {
            assert(read_units_spec(s, n).units == Err::<Seq<UnitView>, AvcError>(AvcError::NotEnoughData));
            assert(read_units_spec(s, n).rest == s.skip(2));
            return Err(AvcError::NotEnoughData);
        }

        let unit = bytes_split_to(buf, length);
        let parsed = Unit::parse(unit);
        match parsed {
            Ok(u) => {
                proof {
                    lemma_after_units_step(units_view(units@), u@,
                        read_units_spec(bytes_view(*buf), (count - i - 1) as nat));
                }
                let ghost before = units@;
                let ghost uv = u@;
                units.push(u);
                assert(units_view(units@) =~= units_view(before).push(uv));
            },
            Err(e) => {
                return Err(e);
            },
        }
        i = i + 1;
    }
    proof {
        match read_units_spec(bytes_view(*buf), 0nat).units {
            Ok(vs) => { assert(units_view(units@) + vs =~= units_view(units@)); },
            Err(e) => {},
        }
    }
    Ok(units)
}


/// Every unit of the list is short enough for its size to be counted.
pub open spec fn units_sizable(us: Seq<UnitView>) -> bool {
    forall|i: int| 0 <= i < us.len() ==> #[trigger] us[i].data.len() < usize::MAX
}

/// Appends each unit of `units`, preceded by its size, to `out`.
fn write_units(units: &Vec<Unit>, out: &mut Vec<u8>)
    requires
        units_sizable(units_view(units@)),
    ensures
        final(out)@ == old(out)@ + units_bytes(units_view(units@)),
{
    let ghost start = out@;
    let mut i: usize = 0;
    assert(units_view(units@).take(0) =~= Seq::<UnitView>::empty());
    assert(start + units_bytes(Seq::<UnitView>::empty()) =~= start);
    while i < units.len()
        invariant
            i <= units@.len(),
            start == old(out)@,
            units_sizable(units_view(units@)),
            out@ == start + units_bytes(units_view(units@).take(i as int)),
        decreases units@.len() - i,
    {
        let unit = &units[i];
        assert(units_view(units@)[i as int] == unit@);
        assert(units_view(units@)[i as int].data.len() < usize::MAX);
        let size = unit.byte_size();
        let size16 = #[verifier::truncate] (size as u16);
        out.push(#[verifier::truncate] ((size16 >> 8) as u8));
        out.push(#[verifier::truncate] ((size16 & 0xff) as u8));
        unit.write_to(out);
        proof {
            let vs = units_view(units@);
            lemma_units_bytes_push(vs.take(i as int), unit@);
            assert(vs.take(i + 1) =~= vs.take(i as int).push(unit@));
            assert(out@ =~= start + units_bytes(vs.take(i + 1)));
        }
        i = i + 1;
    }
    assert(units_view(units@).take(units@.len() as int) =~= units_view(units@));
}

/// Whether two outcomes of reading units agree in all but the units read:
/// whether the reader stops the program, whether all units were read, and
/// what is left.
pub open spec fn same_outcome(a: UnitsRead, b: UnitsRead) -> bool {
    &&& a.aborts == b.aborts
    &&& (a.units is Ok) == (b.units is Ok)
    &&& a.rest == b.rest
}

/// Walks over `count` length-prefixed units at the front of `buf` as
/// [`read_units_spec`] does, without building them: says whether the reader
/// would stop the program and whether every unit would be read, and leaves
/// `buf` where reading would.
fn scan_units(buf: &mut Bytes, count: u8) -> (r: (bool, bool))
    ensures
        ({
            let spec = read_units_spec(bytes_view(*old(buf)), count as nat);
            &&& r.0 == spec.aborts
            &&& r.1 == (spec.units is Ok)
            &&& bytes_view(*final(buf)) == spec.rest
        }),
{
    let ghost s0 = bytes_view(*buf);
    let mut i: u8 = 0;
    while i < count
        invariant
            i <= count,
            s0 == bytes_view(*old(buf)),
            same_outcome(read_units_spec(s0, count as nat), read_units_spec(bytes_view(*buf), (count - i) as nat)),
        decreases count - i,
    {
        let ghost s = bytes_view(*buf);
        let ghost n = (count - i) as nat;
        if bytes_remaining(buf) < 2 {
            return (false, false);
        }
        let length = bytes_get_u16(buf) as usize;
        assert(length == s[0] * 256 + s[1]);
        if bytes_remaining(buf) < length {
            return (false, false);
        }
        let unit = bytes_split_to(buf, length);
        if header_forbidden(&unit) {
            return (true, false);
        }
        let data = bytes_as_slice(&unit);
        if data.len() < 1 {
            return (false, false);
        }
        match UnitType::try_from(data[0] & 0x1f) {
            Ok(_) => {},
            Err(_) => {
                return (false, false);
            },
        }
        assert(parse_unit_spec(bytes_view(unit)) is Ok);
        i = i + 1;
    }
    (false, true)
}

/// Whether parsing a record from `buf` stops the program (on a unit whose
/// forbidden bit is set).
pub fn record_aborts(buf: &Bytes) -> (r: bool)
    ensures
        r == parse_dcr_spec(bytes_view(*buf)).aborts,
{
    let ghost s = bytes_view(*buf);
    let mut b = buf.clone();
    if bytes_remaining(&b) < 6 {
        return false;
    }
    let version = bytes_get_u8(&mut b);
    if version != 1 {
        return false;
    }
    bytes_get_u8(&mut b);
    bytes_get_u8(&mut b);
    bytes_get_u8(&mut b);
    bytes_get_u8(&mut b);
    let sps_count = bytes_get_u8(&mut b) & 0x1f;
    assert(bytes_view(b) =~= s.skip(6));
    let (aborts, ok) = scan_units(&mut b, sps_count);
    if aborts {
        return true;
    }
    if !ok {
        return false;
    }
    if bytes_remaining(&b) < 1 {
        return false;
    }
    let ghost t = bytes_view(b);
    let pps_count = bytes_get_u8(&mut b);
    assert(bytes_view(b) =~= t.skip(1));
    let (aborts, _) = scan_units(&mut b, pps_count);
    aborts
}

impl DecoderConfigurationRecord {
    /// Parses a record from the front of `buf` as [`Self::parse`] does,
    /// unless one of its units has the forbidden bit set, on which parsing
    /// stops the program; that case gives `None` and leaves `buf` as it was.
    pub fn parse_checked(buf: &mut Bytes) -> (r: Option<Result<Self, AvcError>>)
        ensures
            r is None <==> parse_dcr_spec(bytes_view(*old(buf))).aborts,
            r is None ==> bytes_view(*final(buf)) == bytes_view(*old(buf)),
            r matches Some(x) ==> dcr_result_view(x) == parse_dcr_spec(bytes_view(*old(buf))).result
                && bytes_view(*final(buf)) == parse_dcr_spec(bytes_view(*old(buf))).rest,
    {
        if record_aborts(buf) {
            None
        } else {
            Some(Self::parse(buf))
        }
    }

    /// Parses a record from the front of `buf`, leaving what follows it.
    /// On an error `buf` holds what was left when the error was found.
    pub fn parse(buf: &mut Bytes) -> (r: Result<Self, AvcError>)
        requires
            !parse_dcr_spec(bytes_view(*old(buf))).aborts,
        ensures
            dcr_result_view(r) == parse_dcr_spec(bytes_view(*old(buf))).result,
            bytes_view(*final(buf)) == parse_dcr_spec(bytes_view(*old(buf))).rest,
    {
        let ghost s = bytes_view(*buf);
        if bytes_remaining(buf) < 6 {
            return Err(AvcError::NotEnoughData);
        }

        let version = bytes_get_u8(buf);
        if version != 1 {
            return Err(AvcError::UnsupportedConfigurationRecordVersion(version));
        }

        let profile_indication = bytes_get_u8(buf);
        let profile_compatibility = bytes_get_u8(buf);
        let level_indication = bytes_get_u8(buf);
        let length_byte = bytes_get_u8(buf);
        assert(length_byte & 0x03 <= 3) by (bit_vector);
        let nalu_size = (length_byte & 0x03) + 1;

        let sps_count = bytes_get_u8(buf) & 0x1f;
        assert(bytes_view(*buf) =~= s.skip(6));
        let sps = match read_units(buf, sps_count) {
            Ok(sps) => sps,
            Err(e) => { return Err(e); },
        };

        if bytes_remaining(buf) < 1 {
            return Err(AvcError::NotEnoughData);
        }

        let ghost t = bytes_view(*buf);
        let pps_count = bytes_get_u8(buf);
        assert(bytes_view(*buf) =~= t.skip(1));
        let pps = match read_units(buf, pps_count) {
            Ok(pps) => pps,
            Err(e) => { return Err(e); },
        };

        Ok(Self {
            version,
            profile_indication,
            profile_compatibility,
            level_indication,
            nalu_size,
            sps,
            pps,
        })
    }

    /// Appends the record's encoding to `out`.
    pub fn write_to(&self, out: &mut Vec<u8>)
        requires
            self.nalu_size >= 1,
            units_sizable(units_view(self.sps@)),
            units_sizable(units_view(self.pps@)),
        ensures
            final(out)@ == old(out)@ + dcr_bytes(self@),
    {
        let ghost start = out@;
        out.push(self.version);
        out.push(self.profile_indication);
        out.push(self.profile_compatibility);
        out.push(self.level_indication);

        let nalu_size = (self.nalu_size - 1) & 0x03;
        out.push(0b1111_1100 /* reserved */ | nalu_size);

        let sps_count = #[verifier::truncate] (self.sps.len() as u8) & 0x1f;
        out.push(0b1110_0000 /* reserved */ | sps_count);
        let ghost head = out@;

        write_units(&self.sps, out);
        let ghost mid = out@;

        let pps_count = #[verifier::truncate] (self.pps.len() as u8);
        out.push(pps_count);

        write_units(&self.pps, out);
        proof {
            let d = self@;
            assert(d.sps.len() == self.sps@.len());
            assert(d.pps.len() == self.pps@.len());
            assert(head =~= start + seq![
                d.version,
                d.profile_indication,
                d.profile_compatibility,
                d.level_indication,
                0xfcu8 | (((d.nalu_size - 1) as u8) & 0x03),
                0xe0u8 | ((d.sps.len() as u8) & 0x1f),
            ]);
            assert(out@ =~= old(out)@ + dcr_bytes(d));
        }
    }
}


/// Units that survive being written: two-bit `ref_idc`, and a size that
/// fits the sixteen-bit length field.
pub open spec fn units_well_formed(us: Seq<UnitView>) -> bool {
    forall|i: int| 0 <= i < us.len() ==> #[trigger] us[i].ref_idc <= 3 && 1 + us[i].data.len() <= 0xffff
}

/// Records that survive being written: version 1, a NALU length of one to
/// four bytes, at most 31 SPS and 255 PPS units, all well formed.
pub open spec fn dcr_well_formed(d: DcrView) -> bool {
    &&& d.version == 1
    &&& 1 <= d.nalu_size <= 4
    &&& d.sps.len() <= 31
    &&& d.pps.len() <= 255
    &&& units_well_formed(d.sps)
    &&& units_well_formed(d.pps)
}

/// Reading back a written list of units gives the units and leaves whatever
/// followed the list.
pub proof fn lemma_units_write_read(us: Seq<UnitView>, tail: Seq<u8>)
    requires
        units_well_formed(us),
    ensures
        read_units_spec(units_bytes(us) + tail, us.len()) == (UnitsRead {
            units: Ok(us),
            rest: tail,
            aborts: false,
        }),
    decreases us.len(),
{
    if us.len() == 0 {
        assert(units_bytes(us) + tail =~= tail);
        assert(us =~= Seq::<UnitView>::empty());
    } else {
        let u = us[0];
        let rest = us.drop_first();
        assert(units_well_formed(rest)) by {
            assert forall|i: int| 0 <= i < rest.len() implies #[trigger] rest[i].ref_idc <= 3 && 1
                + rest[i].data.len() <= 0xffff by {
                assert(rest[i] == us[i + 1]);
            }
        }
        assert(u.ref_idc <= 3 && 1 + u.data.len() <= 0xffff);
        lemma_units_write_read(rest, tail);
        lemma_unit_write_parse(u);
        let s = units_bytes(us) + tail;
        let v: u16 = (1 + u.data.len()) as u16;
        assert(v == 1 + u.data.len());
        let ub = unit_bytes(u);
        assert(ub.len() == 1 + u.data.len());
        assert(s =~= be16_bytes(v) + ub + (units_bytes(rest) + tail));
        assert(s[0] == (v >> 8u16) as u8);
        assert(s[1] == (v & 0xff) as u8);
        assert(((v >> 8u16) as u8) as int * 256 + ((v & 0xff) as u8) as int == v as int) by (bit_vector);
        let t = s.skip(2);
        assert(t =~= ub + (units_bytes(rest) + tail));
        assert(t.take(v as int) =~= ub);
        assert(t.skip(v as int) =~= units_bytes(rest) + tail);
        assert(seq![u] + rest =~= us);
    }
}

/// Writing a well-formed record and parsing the bytes back gives the same
/// record, and leaves whatever followed it.
pub proof fn lemma_dcr_write_parse(d: DcrView, tail: Seq<u8>)
    requires
        dcr_well_formed(d),
    ensures
        parse_dcr_spec(dcr_bytes(d) + tail) == (DcrRead { result: Ok(d), rest: tail, aborts: false }),
{
    let s = dcr_bytes(d) + tail;
    let m = d.nalu_size;
    let b4: u8 = 0xfcu8 | (((m - 1) as u8) & 0x03);
    assert(((b4 & 0x03) + 1) as u8 == m) by (bit_vector)
        requires 1 <= m <= 4, b4 == 0xfcu8 | (((m - 1) as u8) & 0x03);
    let n: u8 = d.sps.len() as u8;
    assert(n == d.sps.len());
    let b5: u8 = 0xe0u8 | (n & 0x1f);
    assert((b5 & 0x1f) == n) by (bit_vector)
        requires n <= 31, b5 == 0xe0u8 | (n & 0x1f);
    let p: u8 = d.pps.len() as u8;
    assert(p == d.pps.len());
    let head = seq![d.version, d.profile_indication, d.profile_compatibility, d.level_indication, b4, b5];
    let after_sps = seq![p] + units_bytes(d.pps) + tail;
    assert(s =~= head + (units_bytes(d.sps) + after_sps));
    assert(s.skip(6) =~= units_bytes(d.sps) + after_sps);
    assert(s[5] == b5);
    assert(s[4] == b4);
    lemma_units_write_read(d.sps, after_sps);
    assert(after_sps.skip(1) =~= units_bytes(d.pps) + tail);
    assert(after_sps[0] == p);
    lemma_units_write_read(d.pps, tail);
}

} // verus!
