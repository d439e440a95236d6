use embedded_graphics::geometry::{OriginDimensions, Size};
use esp_demos::oled::{color_table_size_fits, load_bitmaps, Animation, Frame, BITMAP_COUNT, FRAME_COUNT, FRAME_X};

/// A 1-bit BMP file of `width` x `height` pixels with a two-entry palette.
fn bmp_file(width: u32, height: u32) -> Vec<u8> {
    let row_bytes = ((width + 31) / 32) * 4;
    let data_len = row_bytes * height;
    let data_start = 14 + 40 + 8;
    let file_size = data_start + data_len;
    let mut f = Vec::new();
    f.extend_from_slice(b"BM");
    f.extend_from_slice(&file_size.to_le_bytes());
    f.extend_from_slice(&0u16.to_le_bytes());
    f.extend_from_slice(&0u16.to_le_bytes());
    f.extend_from_slice(&data_start.to_le_bytes());
    f.extend_from_slice(&40u32.to_le_bytes());
    f.extend_from_slice(&(width as i32).to_le_bytes());
    f.extend_from_slice(&(height as i32).to_le_bytes());
    f.extend_from_slice(&1u16.to_le_bytes());
    f.extend_from_slice(&1u16.to_le_bytes());
    f.extend_from_slice(&0u32.to_le_bytes());
    f.extend_from_slice(&data_len.to_le_bytes());
    f.extend_from_slice(&0u32.to_le_bytes());
    f.extend_from_slice(&0u32.to_le_bytes());
    f.extend_from_slice(&2u32.to_le_bytes());
    f.extend_from_slice(&0u32.to_le_bytes());
    f.extend_from_slice(&[0, 0, 0, 0, 255, 255, 255, 0]);
    for row in 0..height {
        for b in 0..row_bytes {
            f.push(if (row + b) % 2 == 0 { 0xAA } else { 0x55 });
        }
    }
    f
}

#[test]
fn loads_all_bitmaps_in_order() {
    let a = bmp_file(64, 56);
    let b = bmp_file(64, 48);
    let c = bmp_file(32, 40);
    let files: Vec<&[u8]> = vec![&a, &b, &c];
    let bmps = load_bitmaps(&files).expect("all three files are valid");
    assert_eq!(bmps.len(), 3);
    assert_eq!(bmps[0].size(), Size::new(64, 56));
    assert_eq!(bmps[1].size(), Size::new(64, 48));
    assert_eq!(bmps[2].size(), Size::new(32, 40));
}

#[test]
fn empty_list_loads_nothing() {
    let files: Vec<&[u8]> = Vec::new();
    assert_eq!(load_bitmaps(&files).unwrap().len(), 0);
}

#[test]
fn reports_the_first_file_that_does_not_parse() {
    let good = bmp_file(8, 8);
    let not_bmp: Vec<u8> = b"GIF89a not a bitmap at all".to_vec();
    let truncated: Vec<u8> = good[..20].to_vec();
    let files: Vec<&[u8]> = vec![&good, &not_bmp, &truncated];
    let err = load_bitmaps(&files).unwrap_err();
    assert_eq!(err.index, 1);
    assert_eq!(err.cause, tinybmp::ParseError::InvalidFileSignature([b'G', b'I']));
}

#[test]
fn truncated_file_is_refused() {
    let good = bmp_file(8, 8);
    let truncated: Vec<u8> = good[..20].to_vec();
    let files: Vec<&[u8]> = vec![&good, &truncated];
    let err = load_bitmaps(&files).unwrap_err();
    assert_eq!(err.index, 1);
    assert_eq!(err.cause, tinybmp::ParseError::UnexpectedEndOfFile);
}

#[test]
fn first_frame_after_start_is_second_bitmap_lowered() {
    let mut anim = Animation::new();
    assert_eq!(anim.advance(), Frame { bitmap: 1, x: 32, y: 4 });
}

#[test]
fn one_round_of_frames() {
    let mut anim = Animation::new();
    let round: Vec<Frame> = (0..FRAME_COUNT).map(|_| anim.advance()).collect();
    assert_eq!(
        round,
        vec![
            Frame { bitmap: 1, x: FRAME_X, y: 4 },
            Frame { bitmap: 2, x: FRAME_X, y: 8 },
            Frame { bitmap: 1, x: FRAME_X, y: 4 },
            Frame { bitmap: 0, x: FRAME_X, y: 0 },
            Frame { bitmap: 0, x: FRAME_X, y: 0 },
        ]
    );
}

#[test]
fn animation_repeats_every_five_steps() {
    let mut anim = Animation::new();
    let first: Vec<Frame> = (0..FRAME_COUNT).map(|_| anim.advance()).collect();
    for _ in 0..4 {
        let again: Vec<Frame> = (0..FRAME_COUNT).map(|_| anim.advance()).collect();
        assert_eq!(again, first);
    }
}

#[test]
fn frames_stay_within_the_loaded_bitmaps() {
    let mut anim = Animation::new();
    for _ in 0..50 {
        let f = anim.advance();
        assert!(f.bitmap < BITMAP_COUNT);
        assert!(f.y == 0 || f.y == 4 || f.y == 8);
    }
}

#[test]
fn colour_table_that_overflows_a_32_bit_size_is_refused() {
    let mut f = bmp_file(1, 1);
    f[28] = 24;
    f[46..50].copy_from_slice(&0x4000_0000u32.to_le_bytes());
    assert!(!color_table_size_fits(&f));
    f[46..50].copy_from_slice(&0x3FFF_FFFFu32.to_le_bytes());
    assert!(color_table_size_fits(&f));
    assert!(color_table_size_fits(&bmp_file(8, 8)));
    assert!(color_table_size_fits(b"BM"));
}

#[test]
fn each_position_holds_the_bitmap_of_its_file() {
    let a = bmp_file(16, 8);
    let b = bmp_file(8, 16);
    let files: Vec<&[u8]> = vec![&a, &b, &a];
    let bmps = load_bitmaps(&files).unwrap();
    assert_eq!(bmps[0], tinybmp::Bmp::from_slice(&a).unwrap());
    assert_eq!(bmps[1], tinybmp::Bmp::from_slice(&b).unwrap());
    assert_eq!(bmps[2], tinybmp::Bmp::from_slice(&a).unwrap());
}
