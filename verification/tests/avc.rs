use bytes::Bytes;
use mixlab::avc::AvcError;
use mixlab::bitstream::read;
use mixlab::bitstream::read_next;
use mixlab::bitstream::read_checked;
use mixlab::bitstream::read_next_checked;
use mixlab::buf::buffer_contents;
use mixlab::buf::buffer_from_vec;
use mixlab::encode::decoder_configuration_record_checked;
use mixlab::encode::header_nals_checked;
use mixlab::dcr::DecoderConfigurationRecord;
use mixlab::encode::decoder_configuration_record;
use mixlab::encode::decoder_options;
use mixlab::encode::decoder_time_base;
use mixlab::encode::encoder_options;
use mixlab::encode::encoder_settings;
use mixlab::encode::header_nals;
use mixlab::encode::preset_name;
use mixlab::encode::tune_name;
use mixlab::encode::Preset;
use mixlab::encode::Quality;
use mixlab::encode::Tune;
use mixlab::nal::Unit;
use mixlab::nal::UnitType;

fn unit(ref_idc: u8, kind: UnitType, data: &[u8]) -> Unit {
    Unit { ref_idc, kind, data: Bytes::copy_from_slice(data) }
}

/// A record with one SPS (`67 64 00 1f`) and one PPS (`68 ee`), four-byte
/// NAL lengths, followed by one byte that is not part of it.
fn sample_record_bytes() -> Vec<u8> {
    vec![
        1, 0x64, 0x00, 0x1f, 0xff, 0xe1,
        0x00, 0x04, 0x67, 0x64, 0x00, 0x1f,
        0x01,
        0x00, 0x02, 0x68, 0xee,
        0xaa,
    ]
}

fn pairs(opts: &[(String, String)]) -> Vec<(&str, &str)> {
    opts.iter().map(|(k, v)| (k.as_str(), v.as_str())).collect()
}

#[test]
fn unit_parse_reads_header_fields() {
    let unit = Unit::parse(Bytes::from(vec![0x67, 1, 2, 3])).unwrap();
    assert_eq!(unit.ref_idc, 3);
    assert_eq!(unit.kind, UnitType::SequenceParameterSet);
    assert_eq!(&unit.data[..], &[1, 2, 3]);
}

#[test]
fn unit_parse_empty_is_not_enough_data() {
    assert_eq!(Unit::parse(Bytes::new()), Err(AvcError::NotEnoughData));
}

#[test]
fn unit_parse_reserved_and_unknown_types() {
    assert_eq!(Unit::parse(Bytes::from(vec![0x10])), Err(AvcError::ReservedNalUnitType(16)));
    assert_eq!(Unit::parse(Bytes::from(vec![0x17, 9])), Err(AvcError::ReservedNalUnitType(23)));
    assert_eq!(Unit::parse(Bytes::from(vec![0x00])), Err(AvcError::UnknownNalUnitType(0)));
    assert_eq!(Unit::parse(Bytes::from(vec![0x15])), Err(AvcError::UnknownNalUnitType(21)));
    assert_eq!(Unit::parse(Bytes::from(vec![0x1f])), Err(AvcError::UnknownNalUnitType(31)));
}

#[test]
fn unit_type_codes_round_trip() {
    for code in 0u8..32 {
        match UnitType::try_from(code) {
            Ok(kind) => assert_eq!(kind.code(), code),
            Err(AvcError::ReservedNalUnitType(v)) => {
                assert_eq!(v, code);
                assert!(matches!(code, 16 | 17 | 18 | 22 | 23));
            }
            Err(AvcError::UnknownNalUnitType(v)) => {
                assert_eq!(v, code);
                assert!(code == 0 || code == 21 || code >= 24);
            }
            Err(e) => panic!("unexpected error {:?}", e),
        }
    }
    assert_eq!(UnitType::try_from(19), Ok(UnitType::NotAuxiliaryCoded));
    assert_eq!(UnitType::try_from(20), Ok(UnitType::CodedSliceExtension));
}

#[test]
fn unit_write_then_parse_gives_unit_back() {
    let written = unit(2, UnitType::IdrPicture, &[0x88, 0x84, 0x00]);
    let mut out = vec![0xde];
    written.write_to(&mut out);
    assert_eq!(out, vec![0xde, 0x45, 0x88, 0x84, 0x00]);
    assert_eq!(written.byte_size(), 4);
    let parsed = Unit::parse(Bytes::copy_from_slice(&out[1..])).unwrap();
    assert_eq!(parsed, written);
}

#[test]
fn unit_parse_then_write_gives_bytes_back() {
    let bytes = vec![0x25, 0xb8, 0x00, 0x10];
    let parsed = Unit::parse(Bytes::from(bytes.clone())).unwrap();
    assert_eq!((parsed.ref_idc, parsed.kind), (1, UnitType::IdrPicture));
    let mut out = Vec::new();
    parsed.write_to(&mut out);
    assert_eq!(out, bytes);
}

#[test]
fn unit_into_bytes_is_header_then_payload() {
    let u = unit(0, UnitType::SupplementaryEnhancementInformation, &[5, 6]);
    let b = u.clone().into_bytes();
    assert_eq!(&b[..], &[0x06, 5, 6]);
    assert_eq!(Unit::parse(b).unwrap(), u);
}

#[test]
fn dcr_parse_reads_every_field_and_leaves_the_rest() {
    let mut buf = Bytes::from(sample_record_bytes());
    let dcr = DecoderConfigurationRecord::parse(&mut buf).unwrap();
    assert_eq!(dcr.version, 1);
    assert_eq!(dcr.profile_indication, 0x64);
    assert_eq!(dcr.profile_compatibility, 0x00);
    assert_eq!(dcr.level_indication, 0x1f);
    assert_eq!(dcr.nalu_size, 4);
    assert_eq!(dcr.sps, vec![unit(3, UnitType::SequenceParameterSet, &[0x64, 0x00, 0x1f])]);
    assert_eq!(dcr.pps, vec![unit(3, UnitType::PictureParameterSet, &[0xee])]);
    assert_eq!(&buf[..], &[0xaa]);
}

#[test]
fn dcr_write_then_parse_gives_record_back() {
    let mut buf = Bytes::from(sample_record_bytes());
    let dcr = DecoderConfigurationRecord::parse(&mut buf).unwrap();
    let mut out = Vec::new();
    dcr.write_to(&mut out);
    let expected = sample_record_bytes();
    assert_eq!(out, expected[..expected.len() - 1].to_vec());

    let mut again = Bytes::from(out);
    let reparsed = DecoderConfigurationRecord::parse(&mut again).unwrap();
    assert!(again.is_empty());
    assert_eq!(reparsed.nalu_size, dcr.nalu_size);
    assert_eq!(reparsed.sps, dcr.sps);
    assert_eq!(reparsed.pps, dcr.pps);
}

#[test]
fn dcr_write_then_parse_two_byte_lengths() {
    let dcr = DecoderConfigurationRecord {
        version: 1,
        profile_indication: 77,
        profile_compatibility: 64,
        level_indication: 30,
        nalu_size: 2,
        sps: vec![unit(1, UnitType::SequenceParameterSet, &[77, 64, 30, 1]), unit(0, UnitType::SequenceParameterSet, &[])],
        pps: vec![],
    };
    let mut out = Vec::new();
    dcr.write_to(&mut out);
    assert_eq!(out[4], 0xfd);
    assert_eq!(out[5], 0xe2);
    let mut buf = Bytes::from(out);
    let back = DecoderConfigurationRecord::parse(&mut buf).unwrap();
    assert_eq!(back.profile_indication, 77);
    assert_eq!(back.profile_compatibility, 64);
    assert_eq!(back.level_indication, 30);
    assert_eq!(back.nalu_size, 2);
    assert_eq!(back.sps, dcr.sps);
    assert!(back.pps.is_empty());
}

#[test]
fn dcr_parse_short_input_is_not_enough_data() {
    let mut buf = Bytes::from(vec![1, 2, 3, 4, 5]);
    assert!(matches!(DecoderConfigurationRecord::parse(&mut buf), Err(AvcError::NotEnoughData)));
    assert_eq!(buf.len(), 5);
}

#[test]
fn dcr_parse_wrong_version() {
    let mut bytes = sample_record_bytes();
    bytes[0] = 2;
    let mut buf = Bytes::from(bytes);
    assert!(matches!(
        DecoderConfigurationRecord::parse(&mut buf),
        Err(AvcError::UnsupportedConfigurationRecordVersion(2))
    ));
}

#[test]
fn dcr_parse_truncated_sps() {
    let bytes = sample_record_bytes();
    let mut buf = Bytes::copy_from_slice(&bytes[..10]);
    assert!(matches!(DecoderConfigurationRecord::parse(&mut buf), Err(AvcError::NotEnoughData)));
}

#[test]
fn dcr_parse_missing_pps_count() {
    let bytes = sample_record_bytes();
    let mut buf = Bytes::copy_from_slice(&bytes[..12]);
    assert!(matches!(DecoderConfigurationRecord::parse(&mut buf), Err(AvcError::NotEnoughData)));
}

#[test]
fn dcr_parse_bad_unit_type_in_pps() {
    let mut bytes = sample_record_bytes();
    bytes[15] = 0x71; // type 17, reserved
    let mut buf = Bytes::from(bytes);
    assert!(matches!(
        DecoderConfigurationRecord::parse(&mut buf),
        Err(AvcError::ReservedNalUnitType(17))
    ));
}

#[test]
fn bitstream_reads_each_unit() {
    let bytes = Bytes::from(vec![0, 0, 0, 2, 0x65, 0x88, 0, 0, 0, 1, 0x41]);
    let units = read(bytes, 4);
    assert_eq!(units, vec![Ok(unit(3, UnitType::IdrPicture, &[0x88])), Ok(unit(2, UnitType::NonIdrPicture, &[]))]);
}

#[test]
fn bitstream_two_byte_lengths() {
    let bytes = Bytes::from(vec![0, 1, 0x09, 0, 2, 0x0c, 0xff]);
    let units = read(bytes, 2);
    assert_eq!(
        units,
        vec![Ok(unit(0, UnitType::AccessUnitDelimiter, &[])), Ok(unit(0, UnitType::FillerData, &[0xff]))]
    );
}

#[test]
fn bitstream_empty_has_no_units() {
    assert!(read(Bytes::new(), 4).is_empty());
}

#[test]
fn bitstream_truncated_unit_then_truncated_length() {
    let bytes = Bytes::from(vec![0, 0, 0, 5, 0x65]);
    let units = read(bytes, 4);
    assert_eq!(units, vec![Err(AvcError::NotEnoughData), Err(AvcError::NotEnoughData)]);
}

#[test]
fn bitstream_unknown_unit_type_is_reported_and_reading_goes_on() {
    let bytes = Bytes::from(vec![0, 0, 0, 1, 0x00, 0, 0, 0, 1, 0x68]);
    let units = read(bytes, 4);
    assert_eq!(units, vec![Err(AvcError::UnknownNalUnitType(0)), Ok(unit(3, UnitType::PictureParameterSet, &[]))]);
}

#[test]
fn bitstream_read_next_steps_through_the_stream() {
    let mut bytes = Bytes::from(vec![0, 0, 0, 2, 0x65, 0x88, 0, 0]);
    assert_eq!(read_next(&mut bytes, 4), Some(Ok(unit(3, UnitType::IdrPicture, &[0x88]))));
    assert_eq!(&bytes[..], &[0, 0]);
    assert_eq!(read_next(&mut bytes, 4), Some(Err(AvcError::NotEnoughData)));
    assert!(bytes.is_empty());
    assert_eq!(read_next(&mut bytes, 4), None);
}

#[test]
fn encoder_options_constant_bitrate() {
    let opts = encoder_options(Preset::Veryfast, Some(Tune::Zerolatency), Quality::ConstantBitRate { bitrate: 2500000 });
    assert_eq!(
        pairs(&opts),
        vec![
            ("preset", "veryfast"),
            ("tune", "zerolatency"),
            ("b", "2500000"),
            ("minrate", "2500000"),
            ("maxrate", "2500000"),
            ("nal-hrd", "cbr"),
            ("bufsize", "5000000"),
            ("x264-params", "annexb=0"),
        ]
    );
}

#[test]
fn encoder_options_constant_quality_without_tune() {
    let opts = encoder_options(Preset::Medium, None, Quality::ConstantQuality { crf: 23 });
    assert_eq!(pairs(&opts), vec![("preset", "medium"), ("crf", "23"), ("x264-params", "annexb=0")]);
}

#[test]
fn encoder_options_zero_values() {
    let opts = encoder_options(Preset::Ultrafast, Some(Tune::Film), Quality::ConstantQuality { crf: 0 });
    assert_eq!(pairs(&opts), vec![("preset", "ultrafast"), ("tune", "film"), ("crf", "0"), ("x264-params", "annexb=0")]);
}

#[test]
fn preset_and_tune_names() {
    assert_eq!(preset_name(Preset::Superfast), "superfast");
    assert_eq!(preset_name(Preset::Faster), "faster");
    assert_eq!(preset_name(Preset::Fast), "fast");
    assert_eq!(preset_name(Preset::Slow), "slow");
    assert_eq!(preset_name(Preset::Slower), "slower");
    assert_eq!(preset_name(Preset::Veryslow), "veryslow");
    assert_eq!(tune_name(Tune::Animation), "animation");
    assert_eq!(tune_name(Tune::Grain), "grain");
    assert_eq!(tune_name(Tune::Stillimage), "stillimage");
    assert_eq!(tune_name(Tune::Fastdecode), "fastdecode");
}

#[test]
fn decoder_options_ask_for_avcc() {
    assert_eq!(pairs(&decoder_options()), vec![("is_avc", "1")]);
}

#[test]
fn decoder_and_encoder_time_bases() {
    assert_eq!(decoder_time_base(90000), (1, 90000));
    assert_eq!(decoder_time_base(0x1_0000_0005), (1, 5));
    let s = encoder_settings(1280, 720, 30, Some(60));
    assert_eq!((s.profile, s.level), (100, 41));
    assert_eq!((s.width, s.height), (1280, 720));
    assert_eq!((s.time_base_num, s.time_base_den), (1, 30));
    assert_eq!(s.gop_size, Some(60));
    assert_eq!(encoder_settings(1, 1, 1000, None).gop_size, None);
}

#[test]
fn header_nals_and_record_from_extradata() {
    let extradata = vec![0, 0, 0, 4, 0x67, 0x64, 0x00, 0x28, 0, 0, 0, 2, 0x68, 0xeb];
    let nals = header_nals(Bytes::from(extradata.clone()));
    assert_eq!(
        nals,
        vec![
            Ok(unit(3, UnitType::SequenceParameterSet, &[0x64, 0x00, 0x28])),
            Ok(unit(3, UnitType::PictureParameterSet, &[0xeb])),
        ]
    );
    let dcr = decoder_configuration_record(Bytes::from(extradata));
    assert_eq!(dcr.version, 1);
    assert_eq!(dcr.profile_indication, 0x64);
    assert_eq!(dcr.profile_compatibility, 0x00);
    assert_eq!(dcr.level_indication, 0x28);
    assert_eq!(dcr.nalu_size, 4);
    assert_eq!(dcr.sps, vec![unit(3, UnitType::SequenceParameterSet, &[0x64, 0x00, 0x28])]);
    assert_eq!(dcr.pps, vec![unit(3, UnitType::PictureParameterSet, &[0xeb])]);
}

#[test]
fn checked_parsers_refuse_forbidden_headers() {
    let b = buffer_from_vec(vec![0x67, 1]);
    assert_eq!(buffer_contents(&b), &[0x67, 1]);
    assert_eq!(Unit::parse_checked(b), Some(Ok(unit(3, UnitType::SequenceParameterSet, &[1]))));
    assert_eq!(Unit::parse_checked(buffer_from_vec(vec![0xe7, 1])), None);
    assert_eq!(Unit::parse_checked(buffer_from_vec(vec![])), Some(Err(AvcError::NotEnoughData)));

    let good = vec![0, 0, 0, 1, 0x09, 0, 0, 0, 1, 0x0c];
    assert_eq!(read_checked(buffer_from_vec(good), 4).map(|v| v.len()), Some(2));
    let bad = vec![0, 0, 0, 1, 0x09, 0, 0, 0, 1, 0x8c];
    assert_eq!(read_checked(buffer_from_vec(bad.clone()), 4), None);
    let mut b = buffer_from_vec(bad);
    assert_eq!(read_next_checked(&mut b, 4), Some(Some(Ok(unit(0, UnitType::AccessUnitDelimiter, &[])))));
    assert_eq!(read_next_checked(&mut b, 4), None);
    assert_eq!(b.len(), 5);
    assert_eq!(header_nals_checked(buffer_from_vec(vec![0, 0, 0, 1, 0x80])), None);
}

#[test]
fn checked_record_parsing() {
    let mut buf = Bytes::from(sample_record_bytes());
    let dcr = DecoderConfigurationRecord::parse_checked(&mut buf).unwrap().unwrap();
    assert_eq!(dcr.sps.len(), 1);
    assert_eq!(&buf[..], &[0xaa]);

    let mut bytes = sample_record_bytes();
    bytes[15] = 0xe8; // PPS header with the forbidden bit
    let mut buf = Bytes::from(bytes.clone());
    assert!(DecoderConfigurationRecord::parse_checked(&mut buf).is_none());
    assert_eq!(&buf[..], &bytes[..]);
}

#[test]
fn checked_record_from_extradata() {
    let extradata = vec![0, 0, 0, 4, 0x67, 0x64, 0x00, 0x28, 0, 0, 0, 2, 0x68, 0xeb];
    let dcr = decoder_configuration_record_checked(Bytes::from(extradata)).unwrap();
    assert_eq!(dcr.level_indication, 0x28);
    // PPS first: not a valid header
    let swapped = vec![0, 0, 0, 2, 0x68, 0xeb, 0, 0, 0, 4, 0x67, 0x64, 0x00, 0x28];
    assert!(decoder_configuration_record_checked(Bytes::from(swapped)).is_none());
    // SPS too short
    let short = vec![0, 0, 0, 2, 0x67, 0x64, 0, 0, 0, 2, 0x68, 0xeb];
    assert!(decoder_configuration_record_checked(Bytes::from(short)).is_none());
}
