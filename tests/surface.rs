use softbuffer::{Buffer, CGImpl, SoftBufferError, WindowHandle};

fn surface() -> CGImpl {
    CGImpl::new(WindowHandle::new(0x1000, 0x2000)).unwrap()
}

#[test]
fn new_starts_unsized_with_no_pixels() {
    let mut s = surface();
    assert_eq!(s.width(), 0);
    assert_eq!(s.height(), 0);
    assert_eq!(s.window(), WindowHandle::new(0x1000, 0x2000));
    assert!(s.present().unwrap().is_none());
}

#[test]
fn new_rejects_null_window() {
    let r = CGImpl::new(WindowHandle::new(0, 0x2000));
    assert!(matches!(r, Err(SoftBufferError::InitializationError)));
}

#[test]
fn new_rejects_null_view() {
    let r = CGImpl::new(WindowHandle::new(0x1000, 0));
    assert!(matches!(r, Err(SoftBufferError::InitializationError)));
}

#[test]
fn resize_then_buffer_len_is_area() {
    let mut s = surface();
    for &(w, h) in &[(1u32, 1u32), (7, 3), (640, 480), (3, 0), (0, 5)] {
        s.resize(w, h).unwrap();
        assert_eq!(s.buffer_mut().unwrap().len(), (w * h) as usize);
    }
}

#[test]
fn buffer_mut_twice_keeps_size_and_contents() {
    let mut s = surface();
    s.resize(4, 3).unwrap();
    {
        let b = s.buffer_mut().unwrap();
        assert_eq!(b.len(), 12);
        b[5] = 0x123456;
    }
    let b = s.buffer_mut().unwrap();
    assert_eq!(b.len(), 12);
    assert_eq!(b[5], 0x123456);
}

#[test]
fn present_without_write_is_noop() {
    let mut s = surface();
    s.resize(2, 2).unwrap();
    assert!(s.present().unwrap().is_none());
    s.buffer_mut().unwrap()[0] = 7;
    assert!(s.present().unwrap().is_some());
    assert!(s.present().unwrap().is_none());
    assert_eq!(s.width(), 2);
    assert_eq!(s.height(), 2);
}

#[test]
fn buffer_after_present_is_fresh() {
    let mut s = surface();
    s.resize(2, 2).unwrap();
    s.buffer_mut().unwrap().copy_from_slice(&[1, 2, 3, 4]);
    s.present().unwrap();
    assert_eq!(s.buffer_mut().unwrap().to_vec(), vec![0, 0, 0, 0]);
}

#[test]
fn write_present_then_resize_scenario() {
    let mut s = surface();
    s.resize(2, 2).unwrap();
    s.buffer_mut()
        .unwrap()
        .copy_from_slice(&[0xFF0000, 0x00FF00, 0x0000FF, 0xFFFFFF]);
    let frame = s.present().unwrap().unwrap();
    assert_eq!(frame.width, 2);
    assert_eq!(frame.height, 2);
    assert_eq!(frame.bits_per_component, 8);
    assert_eq!(frame.bits_per_pixel, 32);
    assert_eq!(frame.bytes_per_row, 8);
    assert_eq!(
        frame.buffer.pixels(),
        &[0xFF0000, 0x00FF00, 0x0000FF, 0xFFFFFF][..]
    );
    s.resize(3, 2).unwrap();
    assert_eq!(s.buffer_mut().unwrap().len(), 6);
}

#[test]
fn resize_to_zero_gives_empty_view() {
    let mut s = surface();
    s.resize(0, 0).unwrap();
    assert!(s.buffer_mut().unwrap().is_empty());
}

#[test]
fn shrink_keeps_leading_pixels_and_grow_adds_zeros() {
    let mut s = surface();
    s.resize(3, 1).unwrap();
    s.buffer_mut().unwrap().copy_from_slice(&[9, 8, 7]);
    s.resize(2, 1).unwrap();
    assert_eq!(s.buffer_mut().unwrap().to_vec(), vec![9, 8]);
    s.resize(2, 2).unwrap();
    assert_eq!(s.buffer_mut().unwrap().to_vec(), vec![9, 8, 0, 0]);
}

#[test]
fn present_after_resize_fits_pixels_to_size() {
    let mut s = surface();
    s.resize(2, 1).unwrap();
    s.buffer_mut().unwrap().copy_from_slice(&[5, 6]);
    s.resize(3, 1).unwrap();
    let frame = s.present().unwrap().unwrap();
    assert_eq!(frame.width, 3);
    assert_eq!(frame.bytes_per_row, 12);
    assert_eq!(frame.buffer.into_pixels(), vec![5, 6, 0]);
}

#[test]
fn frame_bytes_are_pixel_memory() {
    let b = Buffer::new(vec![0x0A0B0C0D, 0x11223344]);
    assert_eq!(b.len(), 2);
    let bytes = b.as_bytes();
    assert_eq!(bytes.len(), 8);
    let le = [0x0D, 0x0C, 0x0B, 0x0A, 0x44, 0x33, 0x22, 0x11];
    let be = [0x0A, 0x0B, 0x0C, 0x0D, 0x11, 0x22, 0x33, 0x44];
    assert!(bytes == &le[..] || bytes == &be[..]);
    assert_eq!(bytes == &le[..], u32::from_ne_bytes([1, 0, 0, 0]) == 1);
}
