//! The decisions of the H.264 encoder set-up: the option dictionary handed
//! to the codec, the codec context settings, and the decoder configuration
//! record built from the encoder's header units.
use vstd::prelude::*;
use vstd::string::StringExecFns;
use bytes::Bytes;

use crate::avc::AvcError;
use crate::buf::bytes_view;
use crate::buf::bytes_as_slice;
use crate::nal::Unit;
use crate::nal::UnitType;
use crate::nal::UnitView;
use crate::dcr::DecoderConfigurationRecord;
use crate::dcr::DcrView;
use crate::bitstream::read_next;
use crate::bitstream::stream_step;
use crate::bitstream::read;
use crate::bitstream::read_stream_spec;
use crate::bitstream::results_view;
use crate::bitstream::stream_aborts;
use crate::bitstream::stream_aborts_at;
use crate::bitstream::step_aborts;
use crate::buf::bytes_len;

verus! {

/// How the encoder trades size for quality.
#[derive(Debug, Clone, Copy, PartialEq, Eq, Structural)]
pub enum Quality {
    ConstantBitRate { bitrate: usize },
    ConstantQuality { crf: usize },
}

/// x264 speed presets.
#[derive(Debug, Clone, Copy, PartialEq, Eq, Structural)]
pub enum Preset {
    Ultrafast,
    Superfast,
    Veryfast,
    Faster,
    Fast,
    Medium,
    Slow,
    Slower,
    Veryslow,
}

/// x264 tunings.
#[derive(Debug, Clone, Copy, PartialEq, Eq, Structural)]
pub enum Tune {
    Film,
    Animation,
    Grain,
    Stillimage,
    Fastdecode,
    Zerolatency,
}

/// The name x264 knows a preset by.
pub open spec fn preset_name_spec(p: Preset) -> Seq<char> {
    match p {
        Preset::Ultrafast => "ultrafast"@,
        Preset::Superfast => "superfast"@,
        Preset::Veryfast => "veryfast"@,
        Preset::Faster => "faster"@,
        Preset::Fast => "fast"@,
        Preset::Medium => "medium"@,
        Preset::Slow => "slow"@,
        Preset::Slower => "slower"@,
        Preset::Veryslow => "veryslow"@,
    }
}

/// The name x264 knows a tuning by.
pub open spec fn tune_name_spec(t: Tune) -> Seq<char> {
    match t {
        Tune::Film => "film"@,
        Tune::Animation => "animation"@,
        Tune::Grain => "grain"@,
        Tune::Stillimage => "stillimage"@,
        Tune::Fastdecode => "fastdecode"@,
        Tune::Zerolatency => "zerolatency"@,
    }
}

/// The name x264 knows a preset by.
pub fn preset_name(p: Preset) -> (r: &'static str)
    ensures
        r@ == preset_name_spec(p),
{
    match p {
        Preset::Ultrafast => "ultrafast",
        Preset::Superfast => "superfast",
        Preset::Veryfast => "veryfast",
        Preset::Faster => "faster",
        Preset::Fast => "fast",
        Preset::Medium => "medium",
        Preset::Slow => "slow",
        Preset::Slower => "slower",
        Preset::Veryslow => "veryslow",
    }
}

/// The name x264 knows a tuning by.
pub fn tune_name(t: Tune) -> (r: &'static str)
    ensures
        r@ == tune_name_spec(t),
{
    match t {
        Tune::Film => "film",
        Tune::Animation => "animation",
        Tune::Grain => "grain",
        Tune::Stillimage => "stillimage",
        Tune::Fastdecode => "fastdecode",
        Tune::Zerolatency => "zerolatency",
    }
}

/// The character of a decimal digit.
pub open spec fn digit_char(d: nat) -> char {
    (d + 48) as char
}

/// The decimal digits of `n`, most significant first, with no sign or padding.
pub open spec fn decimal(n: nat) -> Seq<char>
    decreases n,
{
    if n < 10 {
        seq![digit_char(n)]
    } else {
        decimal(n / 10) + seq![digit_char(n % 10)]
    }
}

/// The text of the decimal digit `d`.
fn digit_str(d: usize) -> (r: &'static str)
    requires
        d < 10,
    ensures
        r@ == seq![digit_char(d as nat)],
{
    proof {
        reveal_strlit("0");
        reveal_strlit("1");
        reveal_strlit("2");
        reveal_strlit("3");
        reveal_strlit("4");
        reveal_strlit("5");
        reveal_strlit("6");
        reveal_strlit("7");
        reveal_strlit("8");
        reveal_strlit("9");
    }
    let r = match d {
        0 => "0",
        1 => "1",
        2 => "2",
        3 => "3",
        4 => "4",
        5 => "5",
        6 => "6",
        7 => "7",
        8 => "8",
        _ => "9",
    };
    assert(r@ =~= seq![digit_char(d as nat)]);
    r
}

/// The decimal digits of `n`, as `to_string` writes them.
fn usize_to_string(n: usize) -> (r: String)
    ensures
        r@ == decimal(n as nat),
    decreases n,
{
    if n < 10 {
        String::from_str(digit_str(n))
    } else {
        let mut s = usize_to_string(n / 10);
        s.append(digit_str(n % 10));
        s
    }
}

/// One option entry, key and value, as text.
pub open spec fn entry(key: Seq<char>, value: Seq<char>) -> (Seq<char>, Seq<char>) {
    (key, value)
}

/// The options handed to the codec, in the order in which they are set.
pub open spec fn encoder_options_spec(preset: Preset, tune: Option<Tune>, quality: Quality) -> Seq<(Seq<char>, Seq<char>)> {
    seq![entry("preset"@, preset_name_spec(preset))]
        + match tune {
            Some(t) => seq![entry("tune"@, tune_name_spec(t))],
            None => Seq::empty(),
        }
        + match quality {
            Quality::ConstantBitRate { bitrate } => seq![
                entry("b"@, decimal(bitrate as nat)),
                entry("minrate"@, decimal(bitrate as nat)),
                entry("maxrate"@, decimal(bitrate as nat)),
                entry("nal-hrd"@, "cbr"@),
                entry("bufsize"@, decimal((bitrate * 2) as nat)),
            ],
            Quality::ConstantQuality { crf } => seq![entry("crf"@, decimal(crf as nat))],
        }
        + seq![entry("x264-params"@, "annexb=0"@)]
}

/// The options name a tuning exactly when one is asked for: some entry has
/// the key "tune" if and only if `tune` is given, and every such entry
/// carries the name of that tuning.
pub proof fn lemma_tune_only_when_asked(preset: Preset, tune: Option<Tune>, quality: Quality)
    ensures
        (exists|i: int| 0 <= i < encoder_options_spec(preset, tune, quality).len()
            && (#[trigger] encoder_options_spec(preset, tune, quality)[i]).0 == "tune"@) <==> tune is Some,
        forall|i: int| 0 <= i < encoder_options_spec(preset, tune, quality).len()
            && (#[trigger] encoder_options_spec(preset, tune, quality)[i]).0 == "tune"@
            ==> (tune matches Some(t) && encoder_options_spec(preset, tune, quality)[i].1 == tune_name_spec(t)),
{
    reveal_strlit("tune");
    reveal_strlit("preset");
    reveal_strlit("b");
    reveal_strlit("minrate");
    reveal_strlit("maxrate");
    reveal_strlit("nal-hrd");
    reveal_strlit("bufsize");
    reveal_strlit("crf");
    reveal_strlit("x264-params");
    let opts = encoder_options_spec(preset, tune, quality);
    assert forall|i: int| 0 <= i < opts.len() && (#[trigger] opts[i]).0 == "tune"@
        implies (i == 1 && (tune matches Some(t) && opts[i].1 == tune_name_spec(t))) by {
        if i != 1 || tune is None {
            assert(opts[i].0.len() != 4);
        }
    }
    if let Some(t) = tune {
        assert(opts[1].0 == "tune"@);
    }
}

/// The option entries seen as text.
pub open spec fn options_view(v: Seq<(String, String)>) -> Seq<(Seq<char>, Seq<char>)> {
    v.map_values(|e: (String, String)| (e.0@, e.1@))
}

fn push_option(opts: &mut Vec<(String, String)>, key: &str, value: String)
    ensures
        options_view(final(opts)@) == options_view(old(opts)@).push((key@, value@)),
{
    let ghost before = opts@;
    opts.push((key.to_owned(), value));
    assert(options_view(opts@) =~= options_view(before).push((key@, value@)));
}

/// The options an H.264 encoder is opened with: the preset, the tuning if
/// any, the rate control, and length-prefixed (not Annex B) output.
pub fn encoder_options(preset: Preset, tune: Option<Tune>, quality: Quality) -> (r: Vec<(String, String)>)
    requires
        quality matches Quality::ConstantBitRate { bitrate } ==> bitrate * 2 <= usize::MAX,
    ensures
        options_view(r@) == encoder_options_spec(preset, tune, quality),
{
    let mut opts: Vec<(String, String)> = Vec::new();

    // preset
    push_option(&mut opts, "preset", preset_name(preset).to_owned());
    let ghost after_preset = options_view(opts@);

    // tune
    if let Some(tune) = tune {
        push_option(&mut opts, "tune", tune_name(tune).to_owned());
    }
    let ghost after_tune = options_view(opts@);

    // quality/bitrate
    match quality {
        Quality::ConstantBitRate { bitrate } => {
            let bitrate_str = usize_to_string(bitrate);
            push_option(&mut opts, "b", bitrate_str.clone());

            // constant bitrate: the rate is held between these bounds
            push_option(&mut opts, "minrate", bitrate_str.clone());
            push_option(&mut opts, "maxrate", bitrate_str);

            // inserts filler NALs to ensure the stream maintains the configured
            // bitrate for transmission stability
            push_option(&mut opts, "nal-hrd", "cbr".to_owned());

            let bufsize_str = usize_to_string(bitrate * 2);
            push_option(&mut opts, "bufsize", bufsize_str);
        }
        Quality::ConstantQuality { crf } => {
            push_option(&mut opts, "crf", usize_to_string(crf));
        }
    }
    let ghost after_quality = options_view(opts@);

    // force disable annex-b encoding (on by default) - this gives us length prefixed NALs
    push_option(&mut opts, "x264-params", "annexb=0".to_owned());

    proof {
        let spec = encoder_options_spec(preset, tune, quality);
        assert(after_preset =~= seq![entry("preset"@, preset_name_spec(preset))]);
        assert(options_view(opts@) =~= spec);
    }
    opts
}

/// The options an H.264 decoder is opened with: length-prefixed (AVCC)
/// input rather than Annex B.
pub fn decoder_options() -> (r: Vec<(String, String)>)
    ensures
        options_view(r@) == seq![entry("is_avc"@, "1"@)],
{
    let mut opts: Vec<(String, String)> = Vec::new();
    // use avcc encoding rather than default of annex-b default:
    push_option(&mut opts, "is_avc", "1".to_owned());
    assert(options_view(opts@) =~= seq![entry("is_avc"@, "1"@)]);
    opts
}

/// The time base fraction a decoder is configured with, for a time base of
/// `time_base` ticks a second, converted to the codec's `int` by keeping its
/// low 32 bits.
pub fn decoder_time_base(time_base: usize) -> (r: (i32, i32))
    ensures
        r == (1i32, time_base as i32),
{
    (1, #[verifier::truncate] (time_base as i32))
}

/// The H.264 profile the encoder is configured for (High).
pub const PROFILE_H264_HIGH: i32 = 100;

/// The H.264 level the encoder is configured for (4.1).
pub const LEVEL_H264: i32 = 41;

/// The codec context fields the encoder sets from its parameters.
#[derive(Debug, Clone, Copy, PartialEq, Eq, Structural)]
pub struct EncoderSettings {
    pub profile: i32,
    pub level: i32,
    pub width: i32,
    pub height: i32,
    pub time_base_num: i32,
    pub time_base_den: i32,
    pub gop_size: Option<i32>,
}

/// The codec context settings for a picture size, time base and key frame
/// interval. The picture size and interval must fit the codec's `int`
/// fields; the time base is converted as the encoder converts it, keeping
/// its low 32 bits.
pub fn encoder_settings(picture_width: usize, picture_height: usize, time_base: usize, gop_size: Option<usize>) -> (r: EncoderSettings)
    requires
        picture_width <= i32::MAX,
        picture_height <= i32::MAX,
        gop_size matches Some(g) ==> g <= i32::MAX,
    ensures
        r.profile == PROFILE_H264_HIGH,
        r.level == LEVEL_H264,
        r.width == picture_width,
        r.height == picture_height,
        r.time_base_num == 1,
        r.time_base_den == time_base as i32,
        r.gop_size == (match gop_size {
            Some(g) => Some(g as i32),
            None => None::<i32>,
        }),
{
    EncoderSettings {
        profile: PROFILE_H264_HIGH,
        level: LEVEL_H264,
        width: picture_width as i32,
        height: picture_height as i32,
        time_base_num: 1,
        time_base_den: #[verifier::truncate] (time_base as i32),
        gop_size: match gop_size {
            Some(g) => Some(g as i32),
            None => None,
        },
    }
}

/// The length of the NAL length prefixes in the encoder's header data.
pub const HEADER_NALU_SIZE: usize = 4;

/// The header units in the encoder's extradata.
pub fn header_nals(extradata: Bytes) -> (r: Vec<Result<Unit, AvcError>>)
    requires
        !stream_aborts(bytes_view(extradata), HEADER_NALU_SIZE as nat),
    ensures
        results_view(r@) == read_stream_spec(bytes_view(extradata), HEADER_NALU_SIZE as nat),
{
    read(extradata, HEADER_NALU_SIZE)
}

/// The first two header units of `extradata`: an SPS of at least three
/// bytes, then a PPS. The encoder stops the program on anything else.
pub open spec fn header_units_valid(extradata: Seq<u8>) -> bool {
    let first = stream_step(extradata, HEADER_NALU_SIZE as nat);
    let second = stream_step(first.rest, HEADER_NALU_SIZE as nat);
    &&& !first.aborts
    &&& first.item matches Some(Ok(sps))
    &&& sps.kind == UnitType::SequenceParameterSet
    &&& sps.data.len() >= 3
    &&& !second.aborts
    &&& second.item matches Some(Ok(pps))
    &&& pps.kind == UnitType::PictureParameterSet
}

/// The record built from the first two header units.
pub open spec fn header_record_spec(extradata: Seq<u8>) -> DcrView {
    let first = stream_step(extradata, HEADER_NALU_SIZE as nat);
    let second = stream_step(first.rest, HEADER_NALU_SIZE as nat);
    let sps = first.item->Some_0->Ok_0;
    let pps = second.item->Some_0->Ok_0;
    DcrView {
        version: 1,
        // these fields appear to simply be the same as the first fields in the SPS:
        profile_indication: sps.data[0],
        profile_compatibility: sps.data[1],
        level_indication: sps.data[2],
        nalu_size: 4,
        sps: seq![sps],
        pps: seq![pps],
    }
}

/// Builds the decoder configuration record that describes the encoder's
/// output from its header data.
pub fn decoder_configuration_record(extradata: Bytes) -> (r: DecoderConfigurationRecord)
    requires
        header_units_valid(bytes_view(extradata)),
    ensures
        r@ == header_record_spec(bytes_view(extradata)),
{
    let mut header_nals = extradata;

    let sps = read_next(&mut header_nals, HEADER_NALU_SIZE).expect("expected SPS").unwrap();
    let pps = read_next(&mut header_nals, HEADER_NALU_SIZE).expect("expected PPS").unwrap();

    let sps_data = bytes_as_slice(&sps.data);
    let profile_indication = sps_data[0];
    let profile_compatibility = sps_data[1];
    let level_indication = sps_data[2];

    let mut sps_list: Vec<Unit> = Vec::new();
    let ghost sv = sps@;
    sps_list.push(sps);
    let mut pps_list: Vec<Unit> = Vec::new();
    let ghost pv = pps@;
    pps_list.push(pps);
    let r = DecoderConfigurationRecord {
        version: 1,
        profile_indication,
        profile_compatibility,
        level_indication,
        nalu_size: 4,
        sps: sps_list,
        pps: pps_list,
    };
    assert(r@.sps =~= seq![sv]);
    assert(r@.pps =~= seq![pv]);
    r
}

/// The header units in the encoder's extradata, unless one has the
/// forbidden bit set (on which reading stops the program); that case gives
/// `None`.
pub fn header_nals_checked(extradata: Bytes) -> (r: Option<Vec<Result<Unit, AvcError>>>)
    ensures
        r is None <==> stream_aborts(bytes_view(extradata), HEADER_NALU_SIZE as nat),
        r matches Some(v) ==> results_view(v@) == read_stream_spec(bytes_view(extradata), HEADER_NALU_SIZE as nat),
{
    if stream_aborts_at(&extradata, HEADER_NALU_SIZE) {
        None
    } else {
        Some(header_nals(extradata))
    }
}

/// The decoder configuration record of the encoder's header data, when that
/// data starts with an SPS of at least three bytes and a PPS; `None`
/// otherwise (where building the record stops the program).
pub fn decoder_configuration_record_checked(extradata: Bytes) -> (r: Option<DecoderConfigurationRecord>)
    ensures
        r is None <==> !header_units_valid(bytes_view(extradata)),
        r matches Some(d) ==> d@ == header_record_spec(bytes_view(extradata)),
{
    let mut rest = extradata.clone();
    if step_aborts(&rest, HEADER_NALU_SIZE) {
        return None;
    }
    match read_next(&mut rest, HEADER_NALU_SIZE) {
        Some(Ok(sps)) => {
            if !(sps.kind == UnitType::SequenceParameterSet) || bytes_len(&sps.data) < 3 {
                return None;
            }
        },
        _ => {
            return None;
        },
    }
    if step_aborts(&rest, HEADER_NALU_SIZE) {
        return None;
    }
    match read_next(&mut rest, HEADER_NALU_SIZE) {
        Some(Ok(pps)) => {
            if !(pps.kind == UnitType::PictureParameterSet) {
                return None;
            }
        },
        _ => {
            return None;
        },
    }
    Some(decoder_configuration_record(extradata))
}

} // verus!
