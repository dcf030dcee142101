use remotecontrol::screen::{
    bgra_to_rgb, encode_jpeg, ScaleGeometry, ScreenCaptureService, ScreenError, ScreenFrame, scale_rows,
};

fn frame(width: u32, height: u32, fill: u8) -> ScreenFrame {
    ScreenFrame { data: vec![fill; (width * height * 4) as usize], width, height }
}

#[test]
fn bgra_to_rgb_swaps_and_drops_alpha() {
    assert_eq!(bgra_to_rgb(&[1, 2, 3, 4, 5, 6, 7, 8, 9]), vec![3, 2, 1, 7, 6, 5]);
}

#[test]
fn jpeg_of_small_image_has_jpeg_markers() {
    let bgra = vec![128u8; 8 * 8 * 4];
    let jpeg = encode_jpeg(&bgra, 8, 8, 35).expect("encodes");
    assert_eq!(&jpeg[0..2], &[0xFF, 0xD8]);
    assert_eq!(&jpeg[jpeg.len() - 2..], &[0xFF, 0xD9]);
}

#[test]
fn jpeg_of_short_buffer_is_image_creation_error() {
    let bgra = vec![0u8; 4 * 4 * 4 - 4];
    assert_eq!(encode_jpeg(&bgra, 4, 4, 35).unwrap_err(), ScreenError::ImageCreation);
}

#[test]
fn block_change_threshold() {
    let s = ScreenCaptureService::new();
    let last = vec![0u8; 10 * 10 * 4];
    let mut cur = last.clone();
    // 100 pixels: more than 2 must change. Two changed pixels are not enough.
    cur[0] = 50;
    cur[4] = 50;
    assert!(!s.block_has_changed(&last, &cur, 10, 0, 0, 10, 10, 10));
    cur[8] = 50;
    assert!(s.block_has_changed(&last, &cur, 10, 0, 0, 10, 10, 10));
    // A difference equal to the threshold does not count.
    let mut small = last.clone();
    for i in 0..10 {
        small[i * 4] = 10;
    }
    assert!(!s.block_has_changed(&last, &small, 10, 0, 0, 10, 10, 10));
}

#[test]
fn block_extraction_pads_with_black() {
    let s = ScreenCaptureService::new();
    let data: Vec<u8> = (0..16).collect(); // a 2x2 image
    assert_eq!(s.extract_block_data(&data, 2, 1, 0, 1, 2), vec![4, 5, 6, 7, 12, 13, 14, 15]);
    assert_eq!(s.extract_block_data(&data, 2, 1, 1, 2, 1), vec![12, 13, 14, 15, 0, 0, 0, 255]);
}

#[test]
fn detect_changes_reports_changed_blocks_in_order() {
    let s = ScreenCaptureService::new();
    let last = frame(130, 70, 0);
    let mut cur = frame(130, 70, 0);
    // Change the block at (128, 64), the bottom-right corner block (2x6 pixels).
    for y in 64..70u32 {
        for x in 128..130u32 {
            let i = ((y * 130 + x) * 4) as usize;
            cur.data[i] = 200;
        }
    }
    let regions = s.detect_changes(&last, &cur).expect("no encoder error");
    assert_eq!(regions.len(), 1);
    assert_eq!((regions[0].x, regions[0].y, regions[0].width, regions[0].height), (128, 64, 2, 6));
    assert!(regions[0].data.starts_with("/9j/"));
}

#[test]
fn detect_changes_rejects_size_mismatch() {
    let s = ScreenCaptureService::new();
    let err = s.detect_changes(&frame(4, 4, 0), &frame(4, 5, 0)).unwrap_err();
    assert_eq!(err, ScreenError::FrameSizeMismatch);
}

#[test]
fn unchanged_frames_have_no_regions() {
    let s = ScreenCaptureService::new();
    assert!(s.detect_changes(&frame(100, 100, 9), &frame(100, 100, 9)).unwrap().is_empty());
}

#[test]
fn nearest_neighbour_rows() {
    // 4x2 source, pixel value = its index; scaled to 2x1 with steps 2 and 2.
    let mut data = Vec::new();
    for p in 0..8u8 {
        data.extend_from_slice(&[p, p, p, p]);
    }
    let g = ScaleGeometry { width: 4, height: 2, target_width: 2, target_height: 1, x_step: 2, y_step: 2 };
    assert_eq!(scale_rows(&data, &g, 0, 1), vec![0, 0, 0, 0, 2, 2, 2, 2]);
}

#[test]
fn scaling_is_skipped_at_target_size() {
    let s = ScreenCaptureService::new();
    let (w, h, d) = s.scale_frame_if_needed(2, 2, vec![1; 16], 2, 2);
    assert_eq!((w, h), (2, 2));
    assert_eq!(d, vec![1; 16]);
}

#[test]
fn scaling_halves_every_side() {
    let s = ScreenCaptureService::new();
    let mut data = Vec::new();
    for p in 0..16u8 {
        data.extend_from_slice(&[p, 0, 0, 255]);
    }
    // 4x4 to 2x2: pixels (0,0), (2,0), (0,2), (2,2).
    let (w, h, d) = s.scale_frame_if_needed(4, 4, data, 2, 2);
    assert_eq!((w, h), (2, 2));
    assert_eq!(d, vec![0, 0, 0, 255, 2, 0, 0, 255, 8, 0, 0, 255, 10, 0, 0, 255]);
}

#[test]
fn first_frame_is_full_then_diffs() {
    let mut s = ScreenCaptureService::new();
    let data = vec![50u8; 16 * 16 * 4];
    let (text, w, h, format, full, regions) = s.process_frame(16, 16, data.clone(), 16, 16).unwrap();
    assert!(full);
    assert_eq!((w, h), (16, 16));
    assert_eq!(format, "jpeg");
    assert!(text.starts_with("/9j/"));
    assert!(regions.is_none());
    assert_eq!(s.frames_processed(), 1);

    // Same picture: a diff with no regions.
    let (text, _, _, format, full, regions) = s.process_frame(16, 16, data.clone(), 16, 16).unwrap();
    assert!(!full);
    assert_eq!(format, "diff");
    assert_eq!(text, "");
    assert_eq!(regions.unwrap().len(), 0);

    // A changed picture: one region (the whole 16x16 block).
    let changed = vec![200u8; 16 * 16 * 4];
    let (_, _, _, _, full, regions) = s.process_frame(16, 16, changed, 16, 16).unwrap();
    assert!(!full);
    let regions = regions.unwrap();
    assert_eq!(regions.len(), 1);
    assert_eq!((regions[0].x, regions[0].y, regions[0].width, regions[0].height), (0, 0, 16, 16));
}

#[test]
fn every_thirtieth_frame_is_full() {
    let mut s = ScreenCaptureService::new();
    let data = vec![1u8; 8 * 8 * 4];
    let mut full_frames = Vec::new();
    for n in 1..=62u32 {
        let (_, _, _, _, full, _) = s.process_frame(8, 8, data.clone(), 8, 8).unwrap();
        if full {
            full_frames.push(n);
        }
    }
    assert_eq!(full_frames, vec![1, 31, 61]);
}
