//! Network Abstraction Layer units (NALUs) of an H.264 bitstream.
use vstd::prelude::*;
use bytes::Bytes;

use crate::avc::AvcError;
use crate::buf::bytes_view;
use crate::buf::bytes_get_u8;
use crate::buf::bytes_len;
use crate::buf::bytes_remaining;
use crate::buf::bytes_as_slice;
use crate::buf::bytes_from_vec;

verus! {

/// The type of a NAL unit, as carried in the low five bits of its header.
#[derive(Debug, Clone, Copy, PartialEq, Eq, Structural, PartialOrd, Ord, Hash)]
pub enum UnitType {
    NonIdrPicture,
    DataPartitionA,
    DataPartitionB,
    DataPartitionC,
    IdrPicture,
    SupplementaryEnhancementInformation,
    SequenceParameterSet,
    PictureParameterSet,
    AccessUnitDelimiter,
    SequenceEnd,
    StreamEnd,
    FillerData,
    SequenceParameterSetExtension,
    Prefix,
    SequenceParameterSubset,
    NotAuxiliaryCoded,
    CodedSliceExtension,
}

/// The header field value that stands for each unit type.
pub open spec fn unit_type_code(t: UnitType) -> u8 {
    match t {
        UnitType::NonIdrPicture => 1,
        UnitType::DataPartitionA => 2,
        UnitType::DataPartitionB => 3,
        UnitType::DataPartitionC => 4,
        UnitType::IdrPicture => 5,
        UnitType::SupplementaryEnhancementInformation => 6,
        UnitType::SequenceParameterSet => 7,
        UnitType::PictureParameterSet => 8,
        UnitType::AccessUnitDelimiter => 9,
        UnitType::SequenceEnd => 10,
        UnitType::StreamEnd => 11,
        UnitType::FillerData => 12,
        UnitType::SequenceParameterSetExtension => 13,
        UnitType::Prefix => 14,
        UnitType::SequenceParameterSubset => 15,
        UnitType::NotAuxiliaryCoded => 19,
        UnitType::CodedSliceExtension => 20,
    }
}

/// Header field values that name one of the unit types above.
pub open spec fn is_assigned_unit_type(v: u8) -> bool {
    (1 <= v <= 15) || v == 19 || v == 20
}

/// Header field values that the H.264 specification reserves.
pub open spec fn is_reserved_unit_type(v: u8) -> bool {
    (16 <= v <= 18) || v == 22 || v == 23
}

/// What reading a unit type field value gives: the type it names, or why
/// there is none.
pub open spec fn unit_type_from_code(v: u8) -> Result<UnitType, AvcError> {
    if is_assigned_unit_type(v) {
        Ok(choose|t: UnitType| unit_type_code(t) == v)
    } else if is_reserved_unit_type(v) {
        Err(AvcError::ReservedNalUnitType(v))
    } else {
        Err(AvcError::UnknownNalUnitType(v))
    }
}

/// Distinct unit types have distinct codes, and every assigned code names one.
pub proof fn lemma_unit_type_code(t: UnitType, v: u8)
    ensures
        is_assigned_unit_type(unit_type_code(t)),
        unit_type_code(t) < 32,
        unit_type_from_code(unit_type_code(t)) == Ok::<UnitType, AvcError>(t),
        is_assigned_unit_type(v) ==> (exists|u: UnitType| unit_type_code(u) == v),
{
    let c = unit_type_code(t);
    assert(unit_type_code(t) == c);
    let u = choose|u: UnitType| unit_type_code(u) == c;
    assert(unit_type_code(u) == c);
    assert(u == t) by {
        match u { _ => {} }
        match t { _ => {} }
    }
    if is_assigned_unit_type(v) {
        if v == 1 { assert(unit_type_code(UnitType::NonIdrPicture) == v); }
        else if v == 2 { assert(unit_type_code(UnitType::DataPartitionA) == v); }
        else if v == 3 { assert(unit_type_code(UnitType::DataPartitionB) == v); }
        else if v == 4 { assert(unit_type_code(UnitType::DataPartitionC) == v); }
        else if v == 5 { assert(unit_type_code(UnitType::IdrPicture) == v); }
        else if v == 6 { assert(unit_type_code(UnitType::SupplementaryEnhancementInformation) == v); }
        else if v == 7 { assert(unit_type_code(UnitType::SequenceParameterSet) == v); }
        else if v == 8 { assert(unit_type_code(UnitType::PictureParameterSet) == v); }
        else if v == 9 { assert(unit_type_code(UnitType::AccessUnitDelimiter) == v); }
        else if v == 10 { assert(unit_type_code(UnitType::SequenceEnd) == v); }
        else if v == 11 { assert(unit_type_code(UnitType::StreamEnd) == v); }
        else if v == 12 { assert(unit_type_code(UnitType::FillerData) == v); }
        else if v == 13 { assert(unit_type_code(UnitType::SequenceParameterSetExtension) == v); }
        else if v == 14 { assert(unit_type_code(UnitType::Prefix) == v); }
        else if v == 15 { assert(unit_type_code(UnitType::SequenceParameterSubset) == v); }
        else if v == 19 { assert(unit_type_code(UnitType::NotAuxiliaryCoded) == v); }
        else { assert(unit_type_code(UnitType::CodedSliceExtension) == v); }
    }
}

impl UnitType {
    /// The header field value of this unit type.
    pub fn code(self) -> (r: u8)
        ensures
            r == unit_type_code(self),
    {
        match self {
            UnitType::NonIdrPicture => 1,
            UnitType::DataPartitionA => 2,
            UnitType::DataPartitionB => 3,
            UnitType::DataPartitionC => 4,
            UnitType::IdrPicture => 5,
            UnitType::SupplementaryEnhancementInformation => 6,
            UnitType::SequenceParameterSet => 7,
            UnitType::PictureParameterSet => 8,
            UnitType::AccessUnitDelimiter => 9,
            UnitType::SequenceEnd => 10,
            UnitType::StreamEnd => 11,
            UnitType::FillerData => 12,
            UnitType::SequenceParameterSetExtension => 13,
            UnitType::Prefix => 14,
            UnitType::SequenceParameterSubset => 15,
            UnitType::NotAuxiliaryCoded => 19,
            UnitType::CodedSliceExtension => 20,
        }
    }

    /// Reads a unit type field value.
    pub fn try_from(value: u8) -> (r: Result<Self, AvcError>)
        ensures
            r == unit_type_from_code(value),
            r matches Ok(t) ==> unit_type_code(t) == value,
    {
        let val = match value {
            1 => UnitType::NonIdrPicture,
            2 => UnitType::DataPartitionA,
            3 => UnitType::DataPartitionB,
            4 => UnitType::DataPartitionC,
            5 => UnitType::IdrPicture,
            6 => UnitType::SupplementaryEnhancementInformation,
            7 => UnitType::SequenceParameterSet,
            8 => UnitType::PictureParameterSet,
            9 => UnitType::AccessUnitDelimiter,
            10 => UnitType::SequenceEnd,
            11 => UnitType::StreamEnd,
            12 => UnitType::FillerData,
            13 => UnitType::SequenceParameterSetExtension,
            14 => UnitType::Prefix,
            15 => UnitType::SequenceParameterSubset,
            19 => UnitType::NotAuxiliaryCoded,
            20 => UnitType::CodedSliceExtension,
            16 | 17 | 18 | 22 | 23 => {
                return Err(AvcError::ReservedNalUnitType(value));
            },
            _ => {
                return Err(AvcError::UnknownNalUnitType(value));
            },
        };
        proof {
            lemma_unit_type_code(val, value);
        }
        Ok(val)
    }
}


/// A NAL unit: its header fields and its raw byte sequence payload.
#[derive(Debug, Clone, PartialEq, Eq)]
pub struct Unit {
    pub ref_idc: u8,
    pub kind: UnitType,
    /// Raw Byte Sequence Payload (RBSP)
    pub data: Bytes,
}

/// A NAL unit seen as plain values.
pub struct UnitView {
    pub ref_idc: u8,
    pub kind: UnitType,
    pub data: Seq<u8>,
}

impl View for Unit {
    type V = UnitView;

    open spec fn view(&self) -> UnitView {
        UnitView { ref_idc: self.ref_idc, kind: self.kind, data: bytes_view(self.data) }
    }
}

/// The header byte written for a unit: two bits of `ref_idc`, then five
/// bits of type.
pub open spec fn unit_header(ref_idc: u8, kind: UnitType) -> u8 {
    ((ref_idc & 0x03) << 5u8) | (unit_type_code(kind) & 0x1f)
}

/// The encoding of a unit: its header byte, then its payload.
pub open spec fn unit_bytes(u: UnitView) -> Seq<u8> {
    seq![unit_header(u.ref_idc, u.kind)] + u.data
}

/// Whether a unit's bytes begin with the forbidden-zero bit set, which the
/// parser treats as a broken invariant and does not accept.
pub open spec fn unit_header_forbidden(s: Seq<u8>) -> bool {
    s.len() >= 1 && (s[0] >> 7u8) != 0
}

/// What parsing the bytes of one unit gives.
pub open spec fn parse_unit_spec(s: Seq<u8>) -> Result<UnitView, AvcError> {
    if s.len() < 1 {
        Err(AvcError::NotEnoughData)
    } else {
        let header = s[0];
        match unit_type_from_code(header & 0x1f) {
            Ok(kind) => Ok(UnitView { ref_idc: (header >> 5u8) & 0x03, kind, data: s.drop_first() }),
            Err(e) => Err(e),
        }
    }
}

/// A parse result seen as plain values.
pub open spec fn unit_result_view(r: Result<Unit, AvcError>) -> Result<UnitView, AvcError> {
    match r {
        Ok(u) => Ok(u@),
        Err(e) => Err(e),
    }
}

/// Whether the bytes of `buf` begin with the forbidden-zero bit set.
pub fn header_forbidden(buf: &Bytes) -> (r: bool)
    ensures
        r == unit_header_forbidden(bytes_view(*buf)),
{
    let data = bytes_as_slice(buf);
    data.len() >= 1 && (data[0] >> 7) != 0
}

impl Unit {
    /// Parses one unit from the whole of `buf`, unless its header has the
    /// forbidden-zero bit set, on which [`Unit::parse`] stops the program;
    /// that case gives `None`.
    pub fn parse_checked(buf: Bytes) -> (r: Option<Result<Self, AvcError>>)
        ensures
            r is None <==> unit_header_forbidden(bytes_view(buf)),
            r matches Some(x) ==> unit_result_view(x) == parse_unit_spec(bytes_view(buf)),
    {
        if header_forbidden(&buf) {
            None
        } else {
            Some(Unit::parse(buf))
        }
    }

    /// Parses one unit from the whole of `buf`.
    pub fn parse(buf: Bytes) -> (r: Result<Self, AvcError>)
        requires
            !unit_header_forbidden(bytes_view(buf)),
        ensures
            unit_result_view(r) == parse_unit_spec(bytes_view(buf)),
    {
        let mut buf = buf;
        if bytes_remaining(&buf) < 1 {
            return Err(AvcError::NotEnoughData);
        }

        let ghost s = bytes_view(buf);
        let header = bytes_get_u8(&mut buf);
        let ref_idc = (header >> 5) & 0x03;
        let kind = match UnitType::try_from(header & 0x1F) {
            Ok(kind) => kind,
            Err(e) => { return Err(e); }
        };

        Ok(Self { ref_idc, kind, data: buf })
    }

    /// The number of bytes the unit takes when written.
    pub fn byte_size(&self) -> (r: usize)
        requires
            bytes_view(self.data).len() < usize::MAX,
        ensures
            r == unit_bytes(self@).len(),
    {
        1 + bytes_len(&self.data)
    }

    /// Appends the unit's encoding to `buf`.
    pub fn write_to(&self, buf: &mut Vec<u8>)
        ensures
            final(buf)@ == old(buf)@ + unit_bytes(self@),
    {
        let header = ((self.ref_idc & 0x03) << 5) | (self.kind.code() & 0x1f);
        buf.push(header);
        let data = bytes_as_slice(&self.data);
        let ghost start = buf@;
        let mut i: usize = 0;
        while i < data.len()
            invariant
                i <= data@.len(),
                buf@ == start + data@.take(i as int),
            decreases data@.len() - i,
        {
            buf.push(data[i]);
            i = i + 1;
            assert(data@.take(i as int) == data@.take(i - 1) + seq![data@[i - 1]]);
        }
        assert(data@.take(data@.len() as int) == data@);
    }

    /// The unit's encoding as a buffer of its own.
    pub fn into_bytes(self) -> (r: Bytes)
        ensures
            bytes_view(r) == unit_bytes(self@),
    {
        let mut tmp: Vec<u8> = Vec::new();
        self.write_to(&mut tmp);
        assert(tmp@ == unit_bytes(self@));
        bytes_from_vec(tmp)
    }
}

/// Writing a unit and parsing the bytes back gives the same unit, for every
/// unit whose `ref_idc` fits in its two header bits.
pub proof fn lemma_unit_write_parse(u: UnitView)
    requires
        u.ref_idc <= 3,
    ensures
        !unit_header_forbidden(unit_bytes(u)),
        parse_unit_spec(unit_bytes(u)) == Ok::<UnitView, AvcError>(u),
{
    let code = unit_type_code(u.kind);
    lemma_unit_type_code(u.kind, code);
    let r = u.ref_idc;
    let h = unit_header(r, u.kind);
    assert(h == ((r & 0x03) << 5u8) | (code & 0x1f));
    assert(((((r & 0x03) << 5u8) | (code & 0x1f)) >> 7u8) == 0
        && (((((r & 0x03) << 5u8) | (code & 0x1f)) >> 5u8) & 0x03) == r
        && ((((r & 0x03) << 5u8) | (code & 0x1f)) & 0x1f) == code) by (bit_vector)
        requires r <= 3, code < 32;
    let s = unit_bytes(u);
    assert(s[0] == h);
    assert(s.drop_first() =~= u.data);
}

/// Parsing a unit and writing it back gives the bytes that were parsed.
pub proof fn lemma_unit_parse_write(s: Seq<u8>)
    requires
        !unit_header_forbidden(s),
        parse_unit_spec(s) is Ok,
    ensures
        unit_bytes(parse_unit_spec(s)->Ok_0) == s,
{
    let u = parse_unit_spec(s)->Ok_0;
    let h = s[0];
    let c = h & 0x1f;
    let k = unit_type_from_code(c)->Ok_0;
    lemma_unit_type_code(k, c);
    assert(unit_type_code(k) == c);
    assert((((((h >> 5u8) & 0x03) & 0x03) << 5u8) | ((h & 0x1f) & 0x1f)) == h) by (bit_vector)
        requires (h >> 7u8) == 0;
    assert(unit_bytes(u) =~= s);
}

} // verus!
