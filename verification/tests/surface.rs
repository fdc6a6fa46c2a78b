use svgview::error::ViewerError;
use svgview::framebuffer::{Framebuffer, MAX_HEIGHT, MAX_WIDTH};

#[test]
fn allocate_gives_a_blank_surface_of_the_size_asked_for() {
    let surface = Framebuffer::allocate(3, 2).unwrap();
    assert_eq!(surface.width(), 3);
    assert_eq!(surface.height(), 2);
    assert_eq!(surface.bytes(), vec![0u8; 3 * 2 * 4].as_slice());
}

#[test]
fn allocate_takes_the_smallest_size() {
    let surface = Framebuffer::allocate(1, 1).unwrap();
    assert_eq!(surface.bytes(), [0u8, 0, 0, 0].as_slice());
}

#[test]
fn allocate_takes_a_large_size() {
    let surface = Framebuffer::allocate(4096, 4096).unwrap();
    assert_eq!(surface.bytes().len(), 4096 * 4096 * 4);
    assert_eq!(surface.width(), 4096);
    assert_eq!(surface.height(), 4096);
}

#[test]
fn allocate_rejects_a_zero_side() {
    assert!(matches!(Framebuffer::allocate(0, 5), Err(ViewerError::Allocation)));
    assert!(matches!(Framebuffer::allocate(5, 0), Err(ViewerError::Allocation)));
    assert!(matches!(Framebuffer::allocate(0, 0), Err(ViewerError::Allocation)));
}

#[test]
fn allocate_rejects_a_row_beyond_the_limit() {
    assert_eq!(MAX_WIDTH, 536_870_911);
    assert!(matches!(Framebuffer::allocate(MAX_WIDTH + 1, 1), Err(ViewerError::Allocation)));
    assert!(matches!(Framebuffer::allocate(u32::MAX, u32::MAX), Err(ViewerError::Allocation)));
}

#[test]
fn allocate_rejects_more_rows_than_the_rasterizer_counts() {
    assert_eq!(MAX_HEIGHT, 2_147_483_647);
    assert!(matches!(Framebuffer::allocate(1, MAX_HEIGHT + 1), Err(ViewerError::Allocation)));
    assert!(matches!(Framebuffer::allocate(1, u32::MAX), Err(ViewerError::Allocation)));
}

#[test]
fn bytes_mut_writes_through_to_the_surface() {
    let mut surface = Framebuffer::allocate(2, 2).unwrap();
    {
        let bytes = surface.bytes_mut();
        assert_eq!(bytes.len(), 16);
        bytes[0] = 7;
        bytes[15] = 9;
    }
    assert_eq!(surface.bytes()[0], 7);
    assert_eq!(surface.bytes()[15], 9);
    assert_eq!(surface.bytes()[1..15], [0u8; 14]);
    assert_eq!((surface.width(), surface.height()), (2, 2));
}

#[test]
fn clear_resets_every_byte() {
    let mut surface = Framebuffer::allocate(10, 10).unwrap();
    surface.bytes_mut().copy_from_slice(&[0xa5u8; 400]);
    assert!(surface.bytes().iter().all(|byte| *byte == 0xa5));
    surface.clear();
    assert_eq!(surface.bytes(), vec![0u8; 400].as_slice());
    assert_eq!(surface.width(), 10);
    assert_eq!(surface.height(), 10);
}
