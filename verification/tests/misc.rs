use mixlab::codec::check_error;
use mixlab::codec::AvIoError;
use mixlab::codec::IoOutcome;
use mixlab::codec::ReaderError;
use mixlab::codec::seek_request;
use mixlab::codec::SeekRequest;
use mixlab::codec::SeekTarget;
use mixlab::fieldwise::Bar;
use mixlab::fieldwise::Bar__;
use mixlab::fieldwise::Bar__three;
use mixlab::fieldwise::Compose;
use mixlab::fieldwise::Foo;
use mixlab::fieldwise::Foo__;
use mixlab::fieldwise::Foo__one;
use mixlab::fieldwise::Foo__two;
use mixlab::fieldwise::Path;
use mixlab::ffmpeg::blank_plane_fills;
use mixlab::ffmpeg::check_nonnegative;
use mixlab::ffmpeg::check_zero;
use mixlab::ffmpeg::extradata_sizes;
use mixlab::ffmpeg::is_key_frame;
use mixlab::ffmpeg::packet_duration;
use mixlab::ffmpeg::plane_offset;
use mixlab::ffmpeg::recv_frame_status;
use mixlab::ffmpeg::subframe_region;
use mixlab::ffmpeg::AvError;
use mixlab::ffmpeg::ColorFormat;
use mixlab::ffmpeg::PictureSettings;
use mixlab::ffmpeg::PixFmtDescriptor;
use mixlab::ffmpeg::PixelFormat;
use mixlab::ffmpeg::PlaneFill;
use mixlab::ffmpeg::PlaneInfo;
use mixlab::ffmpeg::RecvFrameError;
use mixlab::ffmpeg::Region;
use mixlab::ffmpeg::AVERROR_EOF;
use mixlab::form::text_value;
use mixlab::graphics::copy_unpadded_rows;
use mixlab::graphics::output_buffer_size;
use mixlab::graphics::quad_indices;
use mixlab::graphics::BufferDimensions;
use mixlab::protocol::LineType;
use mixlab::protocol::StreamOutputParams;
use mixlab::urls::origin;
use mixlab::urls::session_url;
use mixlab::urls::upload_kind;
use mixlab::urls::upload_url;
use mixlab::urls::websocket_origin;
use mixlab::urls::websocket_protocol;
use mixlab::util::clamp;
use mixlab::util::Sequence;

fn component(plane: i32, step: i32) -> PlaneInfo {
    PlaneInfo { plane, step, offset: 0, shift: 0, depth: 8 }
}

fn yuv420p() -> PixFmtDescriptor {
    PixFmtDescriptor {
        flags: 16,
        log2_chroma_w: 1,
        log2_chroma_h: 1,
        components: vec![component(0, 1), component(1, 1), component(2, 1)],
    }
}

fn rgba() -> PixFmtDescriptor {
    PixFmtDescriptor {
        flags: 32,
        log2_chroma_w: 0,
        log2_chroma_h: 0,
        components: vec![component(0, 4), component(0, 4), component(0, 4), component(0, 4)],
    }
}

#[test]
fn lens_sets_nested_field() {
    let mut foo = Foo { one: 1, two: Bar { three: 3 } };
    let lens = Compose(Foo__two(Foo__), Bar__three(Bar__));
    *lens.access_mut(&mut foo).unwrap() = 456;
    assert_eq!(lens.access(&foo), Some(&456));
    assert_eq!(foo, Foo { one: 1, two: Bar { three: 456 } });
}

#[test]
fn lens_setting_twice_keeps_the_second_value() {
    let mut foo = Foo { one: 9, two: Bar { three: 3 } };
    let lens = Compose(Foo__two(Foo__), Bar__three(Bar__));
    *lens.access_mut(&mut foo).unwrap() = 10;
    *lens.access_mut(&mut foo).unwrap() = 11;
    assert_eq!(foo, Foo { one: 9, two: Bar { three: 11 } });
    // putting back what is there changes nothing
    let current = *lens.access(&foo).unwrap();
    *lens.access_mut(&mut foo).unwrap() = current;
    assert_eq!(foo, Foo { one: 9, two: Bar { three: 11 } });
}

#[test]
fn lens_to_top_level_field_leaves_others() {
    let mut foo = Foo { one: 1, two: Bar { three: 3 } };
    let lens = Foo__one(Foo__);
    assert_eq!(lens.access(&foo), Some(&1));
    *lens.access_mut(&mut foo).unwrap() = 7;
    assert_eq!(foo, Foo { one: 7, two: Bar { three: 3 } });
    let whole = Foo__;
    assert_eq!(whole.access(&foo), Some(&foo));
}

#[test]
fn page_addresses() {
    assert_eq!(origin("https:", "mixlab.example"), "https://mixlab.example");
    assert_eq!(websocket_protocol(&"https:".to_string()), "wss:");
    assert_eq!(websocket_protocol(&"http:".to_string()), "ws:");
    assert_eq!(websocket_origin(&"https:".to_string(), "h:8000"), "wss://h:8000");
    assert_eq!(websocket_origin(&"http:".to_string(), "localhost:8000"), "ws://localhost:8000");
    assert_eq!(session_url("ws://localhost:8000".to_string()), "ws://localhost:8000/session");
    assert_eq!(upload_url("http://h".to_string(), "song.mp3"), "http://h/_upload/song.mp3");
    assert_eq!(upload_kind(""), "application/octet-stream");
    assert_eq!(upload_kind("video/mp4"), "video/mp4");
}

#[test]
fn clamp_moves_values_into_range() {
    assert_eq!(clamp(0, 10, 15), 10);
    assert_eq!(clamp(0, 10, -3), 0);
    assert_eq!(clamp(0, 10, 5), 5);
    assert_eq!(clamp(0.0, 1.0, 1.5), 1.0);
    assert_eq!(clamp(-1.0, 1.0, -0.25), -0.25);
}

#[test]
fn sequence_counts_from_one() {
    let mut s = Sequence::new();
    assert_eq!(s.last(), None);
    assert_eq!(s.next(), 1);
    assert_eq!(s.next(), 2);
    assert_eq!(s.last(), Some(2));
}

#[test]
fn buffer_dimensions_pad_rows_to_alignment() {
    let d = BufferDimensions::new(100, 2);
    assert_eq!((d.width, d.height, d.unpadded_bytes_per_row, d.padded_bytes_per_row), (100, 2, 400, 512));
    let d = BufferDimensions::new(64, 1);
    assert_eq!((d.unpadded_bytes_per_row, d.padded_bytes_per_row), (256, 256));
    let d = BufferDimensions::new(0, 1);
    assert_eq!(d.padded_bytes_per_row, 0);
}

#[test]
fn copy_unpadded_rows_drops_padding() {
    let d = BufferDimensions::new(65, 2);
    assert_eq!((d.unpadded_bytes_per_row, d.padded_bytes_per_row), (260, 512));
    let padded: Vec<u8> = (0..1024).map(|i| (i % 251) as u8).collect();
    let line_size = 300;
    let mut dest = vec![0xeeu8; 2 * line_size + 10];
    copy_unpadded_rows(&padded, d, &mut dest, line_size);
    for row in 0..2 {
        for col in 0..line_size {
            let got = dest[row * line_size + col];
            if col < 260 {
                assert_eq!(got, padded[row * 512 + col]);
            } else {
                assert_eq!(got, 0xee);
            }
        }
    }
    assert!(dest[600..].iter().all(|b| *b == 0xee));
    assert_eq!(quad_indices(), vec![0, 1, 2, 1, 2, 3]);
}

#[test]
fn pixel_format_descriptor_facts() {
    let y = yuv420p();
    assert!(y.planar());
    assert!(!y.rgb());
    assert_eq!(y.color(), ColorFormat::Yuv);
    assert_eq!((y.log2_chroma_w(), y.log2_chroma_h()), (1, 1));
    assert_eq!(y.align_horizontal(7), 6);
    assert_eq!(y.align_vertical(8), 8);
    let r = rgba();
    assert_eq!(r.color(), ColorFormat::Rgb);
    let mut hw = rgba();
    hw.flags = 8 | 2;
    assert_eq!(hw.color(), ColorFormat::Hwaccel);
    hw.flags = 2 | 64;
    assert_eq!(hw.color(), ColorFormat::Palette);
    hw.flags = 64;
    assert_eq!(hw.color(), ColorFormat::PseudoPalette);
    let c = component(2, 3);
    assert_eq!((c.plane(), c.step(), c.offset(), c.shift(), c.depth()), (2, 3, 0, 0, 8));
}

#[test]
fn subframe_region_rounds_to_chroma_samples() {
    let r = subframe_region(&yuv420p(), 3, 5, 10, 6, 64, 64);
    assert_eq!(r, Region { x: 2, y: 4, width: 10, height: 6 });
    let r = subframe_region(&rgba(), 3, 5, 10, 6, 64, 64);
    assert_eq!(r, Region { x: 3, y: 5, width: 10, height: 6 });
}

#[test]
fn plane_offsets_subsample_chroma() {
    let y = yuv420p();
    assert_eq!(plane_offset(&y, 0, &y.components[0], 6, 4, 64), 6 + 4 * 64);
    assert_eq!(plane_offset(&y, 1, &y.components[1], 6, 4, 32), 3 + 2 * 32);
    let r = rgba();
    assert_eq!(plane_offset(&r, 1, &r.components[1], 6, 4, 256), 24 + 4 * 256);
}

#[test]
fn blank_picture_fills() {
    let strides = vec![8, 4, 4, 0, 0, 0, 0, 0];
    let fills = blank_plane_fills(&yuv420p(), 4, 4, &strides);
    assert_eq!(
        fills,
        vec![
            PlaneFill { plane: 0, byte: 0, size: 28 },
            PlaneFill { plane: 1, byte: 0x80, size: 6 },
            PlaneFill { plane: 2, byte: 0x80, size: 6 },
        ]
    );
    let fills = blank_plane_fills(&rgba(), 3, 2, &vec![16, 0, 0, 0, 0, 0, 0, 0]);
    assert_eq!(fills, vec![PlaneFill { plane: 0, byte: 0, size: 28 }]);
}

#[test]
fn codec_return_codes() {
    assert_eq!(recv_frame_status(0, 11), Ok(()));
    assert_eq!(recv_frame_status(-11, 11), Err(RecvFrameError::NeedMoreInput));
    assert_eq!(recv_frame_status(AVERROR_EOF, 11), Err(RecvFrameError::Eof));
    assert_eq!(recv_frame_status(-22, 11), Err(RecvFrameError::Codec(AvError(-22))));
    assert_eq!(check_zero(0), Ok(()));
    assert_eq!(check_zero(3), Err(AvError(3)));
    assert_eq!(check_nonnegative(3), Ok(()));
    assert_eq!(check_nonnegative(-1), Err(AvError(-1)));
    assert_eq!(packet_duration(0), None);
    assert_eq!(packet_duration(40), Some(40));
    assert!(is_key_frame(1));
    assert!(is_key_frame(3));
    assert!(!is_key_frame(2));
    assert_eq!(extradata_sizes(100), (100, 164));
}

#[test]
fn reader_errors_are_classified() {
    let mut slot: Option<ReaderError<String, u8>> = Some(ReaderError::Panic(1));
    assert!(matches!(check_error(0, &mut slot), IoOutcome::Success));
    assert!(matches!(slot, Some(ReaderError::Panic(1))));

    let mut slot: Option<ReaderError<String, u8>> = Some(ReaderError::Error("disk".to_string()));
    assert!(matches!(check_error(-5, &mut slot), IoOutcome::Failed(AvIoError::Io(ref e)) if e == "disk"));
    assert!(slot.is_none());

    let mut slot: Option<ReaderError<String, u8>> = Some(ReaderError::Panic(9));
    assert!(matches!(check_error(-5, &mut slot), IoOutcome::ResumePanic(9)));
    assert!(slot.is_none());

    let mut slot: Option<ReaderError<String, u8>> = None;
    assert!(matches!(check_error(-5, &mut slot), IoOutcome::Failed(AvIoError::Av(AvError(-5)))));
    assert!(slot.is_none());
}

#[test]
fn seek_requests() {
    assert_eq!(seek_request(0, 0x10000), SeekRequest::Size);
    assert_eq!(seek_request(-1, 0x10000 | 2), SeekRequest::Size);
    assert_eq!(seek_request(40, 0), SeekRequest::Seek(SeekTarget::Start(40)));
    assert_eq!(seek_request(-3, 1), SeekRequest::Seek(SeekTarget::Current(-3)));
    assert_eq!(seek_request(-8, 2), SeekRequest::Seek(SeekTarget::End(-8)));
    assert_eq!(seek_request(5, 7), SeekRequest::Invalid);
    assert_eq!(seek_request(5, 3), SeekRequest::Invalid);
    assert_eq!(seek_request(5, -1), SeekRequest::Size);
}

#[test]
fn widest_rows_and_buffer_size() {
    let width = (usize::MAX - 255) / 4;
    let d = BufferDimensions::new(width, 1);
    assert_eq!(d.padded_bytes_per_row, usize::MAX - 255);
    let d = BufferDimensions::new(100, 10);
    assert_eq!(output_buffer_size(d), 5120);
    assert_eq!(output_buffer_size(BufferDimensions::new(64, 3)), 768);
}

#[test]
fn alignment_with_wide_chroma_shift() {
    let mut desc = yuv420p();
    desc.log2_chroma_w = 40;
    desc.log2_chroma_h = 3;
    let v = (5usize << 40) + 12345;
    assert_eq!(desc.align_horizontal(v), 5usize << 40);
    assert_eq!(desc.align_horizontal(desc.align_horizontal(v)), 5usize << 40);
    assert_eq!(desc.align_vertical(23), 16);
}

#[test]
fn picture_settings_and_defaults() {
    let p = PictureSettings::yuv420p(640, 360);
    assert_eq!((p.width, p.height, p.pixel_format), (640, 360, PixelFormat::yuv420p()));
    assert_eq!(PixelFormat::yuv420p().into_raw(), 0);
    assert_eq!(PictureSettings::rgba(2, 2).pixel_format, PixelFormat(26));
    let d = StreamOutputParams::default();
    assert_eq!((d.seq, d.connect_seq, d.disconnect_seq), (1, 0, 0));
    assert!(d.rtmp_url.is_empty() && d.rtmp_stream_key.is_empty());
    let t = LineType::Video.labeled("out");
    assert_eq!(t.label(), Some("out"));
    assert_eq!(t.line_type(), LineType::Video);
}

#[test]
fn empty_text_field_sets_nothing() {
    assert_eq!(text_value(""), None);
    assert_eq!(text_value("live.mp3"), Some("live.mp3"));
    assert_eq!(text_value(" "), Some(" "));
}
