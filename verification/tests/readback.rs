use dma_buf::egl::TEXTURE_DIMS;
use dma_buf::readback::{encode_png_rgba, readback_layout, PngError, ReadbackLayout};
use dma_buf::slint_renderer::{BorrowedGlTexture, SlintRenderer};

#[test]
fn readback_layout_of_shared_texture() {
    let layout = readback_layout(TEXTURE_DIMS.0, TEXTURE_DIMS.1);
    assert_eq!(layout, ReadbackLayout { buffer_size: 262_144, bytes_per_row: 1024, rows_per_image: 256 });
    assert_eq!(layout.bytes_per_row % 256, 0);
}

#[test]
fn readback_layout_unaligned_width() {
    let layout = readback_layout(100, 3);
    assert_eq!(layout, ReadbackLayout { buffer_size: 1200, bytes_per_row: 400, rows_per_image: 3 });
    assert_ne!(layout.bytes_per_row % 256, 0);
}

#[test]
fn png_encoding_of_small_image() {
    let pixels: Vec<u8> = vec![255, 0, 0, 255, 0, 255, 0, 255, 0, 0, 255, 255, 255, 255, 255, 0];
    let png = encode_png_rgba(2, 2, &pixels).unwrap();
    assert_eq!(&png[..8], &[137, 80, 78, 71, 13, 10, 26, 10]);
    // IHDR: width 2, height 2, depth 8, colour type 6 (RGBA).
    assert_eq!(&png[12..16], b"IHDR");
    assert_eq!(&png[16..24], &[0, 0, 0, 2, 0, 0, 0, 2]);
    assert_eq!(png[24], 8);
    assert_eq!(png[25], 6);
    assert_eq!(&png[png.len() - 8..png.len() - 4], b"IEND");
}

#[test]
fn png_refuses_bad_images() {
    assert_eq!(encode_png_rgba(0, 2, &[]), Err(PngError::EncodingFailed));
    assert_eq!(encode_png_rgba(2, 0, &[]), Err(PngError::EncodingFailed));
    assert_eq!(encode_png_rgba(2, 2, &[0; 15]), Err(PngError::EncodingFailed));
}

#[test]
fn slint_renderer_shows_imported_texture() {
    let renderer = SlintRenderer::new(5);
    assert_eq!(renderer.texture_id(), 5);
    assert_eq!(renderer.render(), BorrowedGlTexture { texture_id: 5, width: 256, height: 256 });
}
