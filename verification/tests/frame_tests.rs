use frame_capture::frame::pack_rows;
use frame_capture::frame::strip_padding;
use frame_capture::layout::PaddedLayout;

fn sample_image(len: usize) -> Vec<u8> {
    (0..len).map(|i| (i * 7 % 251) as u8).collect()
}

#[test]
fn roundtrip_unaligned() {
    // width 3, height 2, 4 bytes per pixel, alignment 16:
    // unpadded row 12, padded row 16.
    let layout = PaddedLayout {
        unpadded_bytes_per_row: 12,
        padded_bytes_per_row: 16,
        rows: 2,
    };
    let image = sample_image(24);
    let buffer = pack_rows(&image, &layout);
    assert_eq!(buffer.len(), 32);
    let back = strip_padding(buffer, &layout);
    assert_eq!(back, image);
}

#[test]
fn roundtrip_aligned() {
    // width 4, height 2, 4 bytes per pixel, alignment 16:
    // the row is already aligned, padded == unpadded.
    let layout = PaddedLayout {
        unpadded_bytes_per_row: 16,
        padded_bytes_per_row: 16,
        rows: 2,
    };
    let image = sample_image(32);
    let buffer = pack_rows(&image, &layout);
    assert_eq!(buffer.len(), 32);
    let back = strip_padding(buffer, &layout);
    assert_eq!(back, image);
}

#[test]
fn aligned_strip_is_identity_on_the_buffer() {
    // width 4, height 2, pixel size 4, alignment 16: unpadded row is
    // 16 bytes, already aligned, so stripping returns the buffer verbatim.
    let layout = PaddedLayout {
        unpadded_bytes_per_row: 16,
        padded_bytes_per_row: 16,
        rows: 2,
    };
    let buffer = sample_image(32);
    let out = strip_padding(buffer.clone(), &layout);
    assert_eq!(out, buffer);
}

#[test]
fn unaligned_strip_drops_the_row_tails() {
    // width 3, height 2, pixel size 4, alignment 16: unpadded row 12,
    // padded row 16; stripping keeps 24 of the 32 bytes, discarding the
    // 4 trailing bytes of each row.
    let layout = PaddedLayout {
        unpadded_bytes_per_row: 12,
        padded_bytes_per_row: 16,
        rows: 2,
    };
    let buffer = sample_image(32);
    let out = strip_padding(buffer.clone(), &layout);
    assert_eq!(out.len(), 24);
    let mut expected = Vec::new();
    expected.extend_from_slice(&buffer[0..12]);
    expected.extend_from_slice(&buffer[16..28]);
    assert_eq!(out, expected);
}

#[test]
fn packing_zero_fills_the_slack() {
    let layout = PaddedLayout {
        unpadded_bytes_per_row: 2,
        padded_bytes_per_row: 4,
        rows: 2,
    };
    let image = vec![1u8, 2, 3, 4];
    let buffer = pack_rows(&image, &layout);
    assert_eq!(buffer, vec![1, 2, 0, 0, 3, 4, 0, 0]);
}
