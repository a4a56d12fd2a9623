use papers::gif_processor::{GifData, GifError};
use papers::pixels::IndexedFrame;

/// Four colors, RGB: red, green, blue, white.
const PALETTE: [u8; 12] = [255, 0, 0, 0, 255, 0, 0, 0, 255, 255, 255, 255];

fn encode_gif(width: u16, height: u16, global: &[u8], frames: &[(Vec<u8>, u16, Option<Vec<u8>>)]) -> Vec<u8> {
    let mut bytes = Vec::new();
    {
        let mut encoder = gif::Encoder::new(&mut bytes, width, height, global).unwrap();
        for (pixels, delay, local) in frames {
            let mut frame = match local {
                Some(palette) => gif::Frame::from_palette_pixels(width, height, pixels, palette, None),
                None => gif::Frame::from_indexed_pixels(width, height, pixels, None),
            };
            frame.delay = *delay;
            encoder.write_frame(&frame).unwrap();
        }
    }
    bytes
}

fn sample_gif() -> Vec<u8> {
    encode_gif(
        3,
        2,
        &PALETTE,
        &[
            (vec![0, 1, 2, 3, 0, 1], 0, None),
            (vec![3, 3, 3, 3, 3, 3], 5, None),
            (vec![2, 1, 0, 0, 1, 2], 12, None),
        ],
    )
}

// Helper function to turn a BGRA frame into a PPM P6 image in memory.
fn bgra_as_ppm(width: u16, height: u16, bgra_data: &[u8]) -> Vec<u8> {
    let mut out = format!("P6\n{} {}\n255\n", width, height).into_bytes();
    for bgra_chunk in bgra_data.chunks_exact(4) {
        out.push(bgra_chunk[2]);
        out.push(bgra_chunk[1]);
        out.push(bgra_chunk[0]);
    }
    out
}

#[test]
fn test_load_holo_gif_metadata() {
    let bytes = sample_gif();
    match GifData::new(&bytes) {
        Ok(gif_data) => {
            assert!(gif_data.width > 0, "GIF width should be greater than 0");
            assert!(gif_data.height > 0, "GIF height should be greater than 0");
            assert!(!gif_data.frames_bgra.is_empty(), "Should load at least one frame");
            assert_eq!(gif_data.frames_bgra.len(), gif_data.frame_delays.len(), "Frame data and delay counts should match");
            let expected_pixel_data_len = (gif_data.width as usize) * (gif_data.height as usize) * 4;
            for (i, frame_data) in gif_data.frames_bgra.iter().enumerate() {
                assert_eq!(frame_data.len(), expected_pixel_data_len, "Frame {} data length is incorrect", i);
            }
        }
        Err(e) => {
            assert!(false, "Failed to load the sample GIF: {:?}", e);
        }
    }
}

#[test]
fn test_save_first_few_frames_as_ppm() {
    let gif_data = GifData::new(&sample_gif()).unwrap();
    let num_frames_to_save = std::cmp::min(gif_data.frames_bgra.len(), 3);
    assert_eq!(num_frames_to_save, 3);
    let ppm = bgra_as_ppm(gif_data.width, gif_data.height, &gif_data.frames_bgra[0]);
    let mut expected = b"P6\n3 2\n255\n".to_vec();
    expected.extend_from_slice(&[255, 0, 0, 0, 255, 0, 0, 0, 255, 255, 255, 255, 255, 0, 0, 0, 255, 0]);
    assert_eq!(ppm, expected);
}

#[test]
fn decodes_sizes_delays_and_pixels() {
    let gif_data = GifData::new(&sample_gif()).unwrap();
    assert_eq!((gif_data.width, gif_data.height), (3, 2));
    assert_eq!(gif_data.frame_delays, vec![0, 5, 12]);
    assert_eq!(
        gif_data.frames_bgra[0],
        vec![0, 0, 255, 255, 0, 255, 0, 255, 255, 0, 0, 255, 255, 255, 255, 255, 0, 0, 255, 255, 0, 255, 0, 255]
    );
    assert_eq!(gif_data.frames_bgra[1], [255u8; 24].to_vec());
}

#[test]
fn local_palette_wins_over_global() {
    let local = vec![10, 20, 30, 40, 50, 60];
    let bytes = encode_gif(2, 1, &PALETTE, &[(vec![1, 0], 7, Some(local))]);
    let gif_data = GifData::new(&bytes).unwrap();
    assert_eq!(gif_data.frames_bgra, vec![vec![60, 50, 40, 255, 30, 20, 10, 255]]);
    assert_eq!(gif_data.frame_delays, vec![7]);
}

#[test]
fn empty_input_fails_reading_info() {
    assert!(matches!(GifData::new(&[]), Err(GifError::ReadInfo(_))));
}

#[test]
fn not_a_gif_fails_reading_info() {
    assert!(matches!(GifData::new(b"this is not a gif at all"), Err(GifError::ReadInfo(_))));
}

#[test]
fn gif_without_frames_is_refused() {
    // The decoder only sees a trailer right after the global table once a byte
    // follows it; without one it reports an unexpected end of the stream.
    let mut bytes = encode_gif(2, 2, &PALETTE, &[]);
    assert!(matches!(GifData::new(&bytes), Err(GifError::ReadFrame(_))));
    bytes.push(0);
    assert!(matches!(GifData::new(&bytes), Err(GifError::NoFrames)));
}

#[test]
fn truncated_frame_fails_reading_frame() {
    let bytes = sample_gif();
    let cut = &bytes[..bytes.len() - 12];
    assert!(matches!(GifData::new(cut), Err(GifError::ReadFrame(_))));
}

fn frame(delay: u16, width: u16, height: u16, palette: Option<Vec<u8>>, buffer: Vec<u8>) -> IndexedFrame {
    IndexedFrame { delay, width, height, palette, buffer }
}

#[test]
fn invalid_index_is_opaque_black() {
    // Index 2 names no color of a two-color palette.
    let f = frame(0, 2, 1, None, vec![2, 0]);
    assert_eq!(f.to_bgra(2, 1, &[1, 2, 3, 4, 5, 6]), vec![0, 0, 0, 255, 3, 2, 1, 255]);
}

#[test]
fn missing_pixels_are_opaque_black_and_extra_ones_ignored() {
    let short = frame(0, 2, 1, None, vec![0]);
    assert_eq!(short.to_bgra(2, 1, &[9, 8, 7]), vec![7, 8, 9, 255, 0, 0, 0, 255]);
    let long = frame(0, 1, 1, None, vec![0, 0, 0]);
    assert_eq!(long.to_bgra(1, 1, &[9, 8, 7]), vec![7, 8, 9, 255]);
}

#[test]
fn frame_pixels_fill_the_screen_buffer_from_its_start() {
    // A 2x1 frame on a 3x2 screen: its pixels are the buffer's first two.
    let f = frame(0, 2, 1, None, vec![0, 1]);
    let out = f.to_bgra(3, 2, &[10, 20, 30, 40, 50, 60]);
    assert_eq!(
        out,
        vec![30, 20, 10, 255, 60, 50, 40, 255, 0, 0, 0, 255, 0, 0, 0, 255, 0, 0, 0, 255, 0, 0, 0, 255]
    );
    // Pixels past the screen's buffer are cut off.
    let wide = frame(0, 3, 1, None, vec![1, 0, 0]);
    assert_eq!(wide.to_bgra(2, 1, &[10, 20, 30, 40, 50, 60]), vec![60, 50, 40, 255, 30, 20, 10, 255]);
}

#[test]
fn one_red_pixel() {
    let bytes = [
        0x47, 0x49, 0x46, 0x38, 0x39, 0x61, 0x01, 0x00, 0x01, 0x00, 0x80, 0x00, 0x00, 0xFF, 0x00, 0x00, 0x00, 0x00,
        0xFF, 0x2C, 0x00, 0x00, 0x00, 0x00, 0x01, 0x00, 0x01, 0x00, 0x00, 0x02, 0x02, 0x44, 0x01, 0x00, 0x3B,
    ];
    let gif_data = GifData::new(&bytes).unwrap();
    assert_eq!((gif_data.width, gif_data.height), (1, 1));
    assert_eq!(gif_data.frames_bgra, vec![vec![0, 0, 255, 255]]);
    assert_eq!(gif_data.frame_delays, vec![0]);
}

#[test]
fn frame_offsets_are_not_applied() {
    // A 1x1 frame at column 1, row 1 of a 2x2 screen lands on the first pixel.
    let mut bytes = Vec::new();
    {
        let mut encoder = gif::Encoder::new(&mut bytes, 2, 2, &PALETTE).unwrap();
        let mut f = gif::Frame::from_indexed_pixels(1, 1, &[1], None);
        f.left = 1;
        f.top = 1;
        encoder.write_frame(&f).unwrap();
    }
    let gif_data = GifData::new(&bytes).unwrap();
    assert_eq!(gif_data.frames_bgra, vec![vec![0, 255, 0, 255, 0, 0, 0, 255, 0, 0, 0, 255, 0, 0, 0, 255]]);
}

#[test]
fn offset_frame_as_large_as_the_screen() {
    let mut bytes = Vec::new();
    {
        let mut encoder = gif::Encoder::new(&mut bytes, 1, 1, &PALETTE).unwrap();
        let mut f = gif::Frame::from_indexed_pixels(1, 1, &[0], None);
        f.left = 1;
        encoder.write_frame(&f).unwrap();
    }
    let gif_data = GifData::new(&bytes).unwrap();
    assert_eq!(gif_data.frames_bgra, vec![vec![0, 0, 255, 255]]);
}

#[test]
fn frame_read_errors_carry_the_decoders_message() {
    let bytes = sample_gif();
    match GifData::new(&bytes[..bytes.len() - 12]) {
        Err(GifError::ReadFrame(message)) => assert!(!message.is_empty()),
        other => panic!("unexpected result: {:?}", other),
    }
    match GifData::new(b"GIF00a") {
        Err(GifError::ReadInfo(message)) => assert!(!message.is_empty()),
        other => panic!("unexpected result: {:?}", other),
    }
}

#[test]
fn every_pixel_is_opaque() {
    let gif_data = GifData::new(&sample_gif()).unwrap();
    for frame in &gif_data.frames_bgra {
        assert!(frame.chunks_exact(4).all(|px| px[3] == 255));
    }
}

#[test]
fn frame_to_bgra_uses_global_palette_without_local() {
    let f = frame(3, 2, 1, None, vec![1, 1]);
    assert_eq!(f.to_bgra(2, 1, &[1, 2, 3, 4, 5, 6]), vec![6, 5, 4, 255, 6, 5, 4, 255]);
    let with_local = IndexedFrame { palette: Some(vec![7, 8, 9]), buffer: vec![0, 0], ..f };
    assert_eq!(with_local.to_bgra(2, 1, &[1, 2, 3, 4, 5, 6]), vec![9, 8, 7, 255, 9, 8, 7, 255]);
}

#[test]
fn from_frames_keeps_order_and_delays() {
    let frames = vec![frame(1, 1, 1, None, vec![0]), frame(2, 1, 1, None, vec![1])];
    let gif_data = GifData::from_frames(1, 1, &[1, 2, 3, 4, 5, 6], &frames).unwrap();
    assert_eq!(gif_data.frame_delays, vec![1, 2]);
    assert_eq!(gif_data.frames_bgra, vec![vec![3, 2, 1, 255], vec![6, 5, 4, 255]]);
}

#[test]
fn from_frames_without_frames_is_refused() {
    assert!(matches!(GifData::from_frames(1, 1, &[], &[]), Err(GifError::NoFrames)));
}

#[test]
fn screen_size_comes_from_the_header() {
    let bytes = encode_gif(300, 2, &PALETTE, &[(vec![0; 600], 1, None)]);
    assert_eq!(&bytes[6..10], &[44, 1, 2, 0]);
    let gif_data = GifData::new(&bytes).unwrap();
    assert_eq!((gif_data.width, gif_data.height), (300, 2));
}

#[test]
fn truncated_header_fails_reading_info() {
    let bytes = sample_gif();
    assert!(matches!(GifData::new(&bytes[..10]), Err(GifError::ReadInfo(_))));
}
