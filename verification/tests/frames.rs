use bytes::Bytes;
use yv_streamer_software::color::yuyv_to_rgb;
use yv_streamer_software::jpeg::encode_frame_to_jpeg;
use yv_streamer_software::manager::build_mjpeg_chunk;
use yv_streamer_software::manager::yuv_to_rgb;

#[test]
fn integer_yuv_to_rgb_matches_reference_output() {
    // Pure white: Y=255, U=0, V=0 (after -128 offset applied by caller)
    assert_eq!(yuv_to_rgb(255, 0, 0), [255, 255, 255]);

    // Pure black: Y=0, U=0, V=0
    assert_eq!(yuv_to_rgb(0, 0, 0), [0, 0, 0]);

    // Mid-gray: Y=128, U=0, V=0
    assert_eq!(yuv_to_rgb(128, 0, 0), [128, 128, 128]);

    // Red-ish: Y=128, U=-50, V=100
    let rgb = yuv_to_rgb(128, -50, 100);
    let ref_r = (128.0 + 1.402 * 100.0f32).round().clamp(0.0, 255.0) as u8;
    let ref_g = (128.0 - 0.344136 * -50.0f32 - 0.714136 * 100.0).round().clamp(0.0, 255.0) as u8;
    let ref_b = (128.0 + 1.772 * -50.0f32).round().clamp(0.0, 255.0) as u8;
    assert!((rgb[0] as i16 - ref_r as i16).abs() <= 1, "red: {} vs {}", rgb[0], ref_r);
    assert!((rgb[1] as i16 - ref_g as i16).abs() <= 1, "green: {} vs {}", rgb[1], ref_g);
    assert!((rgb[2] as i16 - ref_b as i16).abs() <= 1, "blue: {} vs {}", rgb[2], ref_b);
}

#[test]
fn yuv_to_rgb_gives_exact_values() {
    assert_eq!(yuv_to_rgb(128, -50, 100), [255, 74, 39]);
    assert_eq!(yuv_to_rgb(16, 0, -128), [0, 107, 16]);
    assert_eq!(yuv_to_rgb(0, 127, 127), [178, 0, 225]);
}

#[test]
fn a_luma_beyond_sixteen_bits_wraps() {
    assert_eq!(yuv_to_rgb(65536 + 77, 0, 0), [77, 77, 77]);
}

#[test]
fn every_luma_without_chroma_is_gray() {
    for y in 0..256 {
        assert_eq!(yuv_to_rgb(y, 0, 0), [y as u8, y as u8, y as u8]);
    }
}

#[test]
fn fixed_point_stays_within_one_of_the_reference() {
    for y in (0..256).step_by(15) {
        for u in (-128..128).step_by(17) {
            for v in (-128..128).step_by(17) {
                let rgb = yuv_to_rgb(y, u, v);
                let reference = [
                    y as f64 + 1.402 * v as f64,
                    y as f64 - 0.344136 * u as f64 - 0.714136 * v as f64,
                    y as f64 + 1.772 * u as f64,
                ];
                for c in 0..3 {
                    let expected = reference[c].round().clamp(0.0, 255.0) as i32;
                    assert!((rgb[c] as i32 - expected).abs() <= 1);
                }
            }
        }
    }
}

#[test]
fn packed_frames_become_two_pixels_per_group() {
    assert_eq!(yuyv_to_rgb(&[10, 128, 200, 128]), vec![10, 10, 10, 200, 200, 200]);
    let first = yuv_to_rgb(128, -50, 100);
    let second = yuv_to_rgb(60, -50, 100);
    let rgb = yuyv_to_rgb(&[0, 128, 0, 128, 128, 78, 60, 228]);
    assert_eq!(rgb.len(), 12);
    assert_eq!(&rgb[6..9], &first[..]);
    assert_eq!(&rgb[9..12], &second[..]);
}

#[test]
fn trailing_bytes_of_a_packed_frame_are_dropped() {
    assert_eq!(yuyv_to_rgb(&[10, 128, 200]), Vec::<u8>::new());
    assert_eq!(yuyv_to_rgb(&[10, 128, 200, 128, 1, 2, 3]).len(), 6);
    assert_eq!(yuyv_to_rgb(&[]), Vec::<u8>::new());
}

#[test]
fn chunks_have_header_lines_and_line_ends() {
    let chunk = build_mjpeg_chunk(&Bytes::from(vec![1u8, 2, 3, 4]));
    let mut expected: Vec<u8> = Vec::new();
    expected.extend_from_slice(b"--frame\r\nContent-Type: image/jpeg\r\nContent-Length: 4\r\n\r\n");
    expected.extend_from_slice(&[1, 2, 3, 4]);
    expected.extend_from_slice(b"\r\n");
    assert_eq!(&chunk[..], &expected[..]);
}

#[test]
fn chunks_announce_long_frames_in_decimal() {
    let chunk = build_mjpeg_chunk(&Bytes::from(vec![7u8; 1024]));
    let text = b"Content-Length: 1024\r\n";
    assert!(chunk.windows(text.len()).any(|window| window == text));
    let start = chunk.len() - 1024 - 2;
    assert_eq!(&chunk[start..start + 1024], &vec![7u8; 1024][..]);
    assert_eq!(
        &build_mjpeg_chunk(&Bytes::new())[..],
        &b"--frame\r\nContent-Type: image/jpeg\r\nContent-Length: 0\r\n\r\n\r\n"[..]
    );
}

#[test]
fn different_frames_make_different_chunks() {
    let a = build_mjpeg_chunk(&Bytes::from(vec![1u8]));
    let b = build_mjpeg_chunk(&Bytes::from(vec![2u8]));
    let c = build_mjpeg_chunk(&Bytes::from(vec![1u8, 13, 10]));
    assert_ne!(a, b);
    assert_ne!(a, c);
}

#[test]
fn mjpg_frames_are_passed_on() {
    assert_eq!(encode_frame_to_jpeg(&[9, 8, 7], 640, 480, "MJPG"), Ok(vec![9, 8, 7]));
    assert_eq!(encode_frame_to_jpeg(&[], 0, 0, "MJPG"), Ok(vec![]));
}

#[test]
fn yuyv_frames_become_jpeg_images() {
    let frame = vec![128u8; 16 * 8 * 2];
    let image = encode_frame_to_jpeg(&frame, 16, 8, "YUYV").unwrap();
    assert_eq!(&image[..2], &[0xff, 0xd8]);
    assert_eq!(&image[image.len() - 2..], &[0xff, 0xd9]);
    let brighter = vec![200u8; 16 * 8 * 2];
    assert_ne!(encode_frame_to_jpeg(&brighter, 16, 8, "YUYV").unwrap(), image);
    assert_eq!(encode_frame_to_jpeg(&frame, 16, 8, "YUYV"), Ok(image));
}

#[test]
fn yuyv_frames_are_encoded_as_the_encoder_does() {
    let frame: Vec<u8> = (0..16 * 8 * 2).map(|i| (i * 7 % 256) as u8).collect();
    let mut expected = Vec::new();
    jpeg_encoder::Encoder::new(&mut expected, 80)
        .encode(&yuyv_to_rgb(&frame), 16, 8, jpeg_encoder::ColorType::Rgb)
        .unwrap();
    assert_eq!(encode_frame_to_jpeg(&frame, 16, 8, "YUYV"), Ok(expected));
}

#[test]
fn dimensions_are_cut_to_sixteen_bits() {
    let frame = vec![128u8; 16 * 8 * 2];
    assert_eq!(
        encode_frame_to_jpeg(&frame, 65536 + 16, 8, "YUYV"),
        encode_frame_to_jpeg(&frame, 16, 8, "YUYV")
    );
}

#[test]
fn short_frames_are_refused() {
    assert_eq!(
        encode_frame_to_jpeg(&[128; 8], 4, 2, "YUYV"),
        Err("Image data too small for dimensions and color_type: 12 need at least 24".to_string())
    );
    assert_eq!(
        encode_frame_to_jpeg(&[128; 8], 65535, 65535, "YUYV"),
        Err(
            "Image data too small for dimensions and color_type: 12 need at least 12884508675"
                .to_string()
        )
    );
}

#[test]
fn empty_dimensions_are_refused() {
    assert_eq!(
        encode_frame_to_jpeg(&[128; 8], 0, 2, "YUYV"),
        Err("Image dimensions must be non zero: 0x2".to_string())
    );
    assert_eq!(
        encode_frame_to_jpeg(&[128; 8], 3, 65536, "YUYV"),
        Err("Image dimensions must be non zero: 3x0".to_string())
    );
}

#[test]
fn other_encodings_are_refused() {
    assert_eq!(
        encode_frame_to_jpeg(&[1, 2], 1, 1, "H264"),
        Err("Unsupported capture encoding H264".to_string())
    );
    assert_eq!(
        encode_frame_to_jpeg(&[1, 2], 1, 1, "yuyv"),
        Err("Unsupported capture encoding yuyv".to_string())
    );
}
