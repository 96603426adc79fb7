use x11_screenshot::bgr;
use x11_screenshot::CaptureError;
use x11_screenshot::CapturedImage;
use x11_screenshot::DisplayConnection;
use x11_screenshot::MemoryServer;

fn two_by_two_bytes() -> Vec<u8> {
    vec![10, 20, 30, 0, 40, 50, 60, 0, 70, 80, 90, 0, 100, 110, 120, 0]
}

fn capture_two_by_two(server: &mut MemoryServer) -> (DisplayConnection, CapturedImage) {
    server.push_reply(Some(two_by_two_bytes()));
    let conn = DisplayConnection::open(server).unwrap();
    let img = conn.capture_area(server, 2, 2, 0, 0).unwrap();
    (conn, img)
}

#[test]
fn full_screen_capture_uses_screen_size() {
    let mut server = MemoryServer::new(800, 600);
    server.push_reply(Some(vec![0u8; 800 * 600 * 4]));
    let conn = DisplayConnection::open(&mut server).unwrap();
    assert_eq!(conn.width(), 800);
    assert_eq!(conn.height(), 600);
    let img = conn.capture(&mut server).unwrap();
    assert_eq!(img.width(), 800);
    assert_eq!(img.height(), 600);
    assert_eq!(img.pixel_count(), 800 * 600);
}

#[test]
fn captured_pixels_decode_in_bgr_order() {
    let mut server = MemoryServer::new(2, 2);
    let (_conn, img) = capture_two_by_two(&mut server);
    assert_eq!(img.pixel_at(0, 0).unwrap(), bgr { b: 10, g: 20, r: 30, _pad: 0 });
    assert_eq!(img.pixel_at(1, 0).unwrap(), bgr { b: 40, g: 50, r: 60, _pad: 0 });
    assert_eq!(img.pixel_at(0, 1).unwrap(), bgr { b: 70, g: 80, r: 90, _pad: 0 });
    assert_eq!(img.pixel_at(1, 1).unwrap(), bgr { b: 100, g: 110, r: 120, _pad: 0 });
}

#[test]
fn null_reply_makes_capture_fail() {
    let mut server = MemoryServer::new(640, 480);
    server.push_reply(None);
    let conn = DisplayConnection::open(&mut server).unwrap();
    assert!(conn.capture_area(&mut server, 2, 2, 0, 0).is_none());
    assert_eq!(server.live_image_count(), 0);
}

#[test]
fn refused_server_makes_open_fail() {
    let mut server = MemoryServer::new(800, 600);
    server.refuse_open();
    let r = DisplayConnection::open(&mut server);
    assert_eq!(r.unwrap_err(), CaptureError::ConnectionUnavailable);
}

#[test]
fn successful_capture_holds_width_times_height_pixels() {
    let mut server = MemoryServer::new(10, 10);
    server.push_reply(Some(vec![7u8; 3 * 2 * 4]));
    let conn = DisplayConnection::open(&mut server).unwrap();
    let img = conn.capture_area(&mut server, 3, 2, 0, 0).unwrap();
    assert_eq!(img.pixel_count(), 6);
    assert_eq!(img.width(), 3);
    assert_eq!(img.height(), 2);
}

#[test]
fn wrongly_sized_reply_makes_capture_fail() {
    let mut server = MemoryServer::new(10, 10);
    server.push_reply(Some(vec![7u8; 12]));
    let conn = DisplayConnection::open(&mut server).unwrap();
    assert!(conn.capture_area(&mut server, 2, 2, 0, 0).is_none());
    assert_eq!(server.live_image_count(), 0);
}

#[test]
fn capture_with_no_scripted_reply_fails() {
    let mut server = MemoryServer::new(10, 10);
    let conn = DisplayConnection::open(&mut server).unwrap();
    assert!(conn.capture_area(&mut server, 2, 2, 0, 0).is_none());
}

#[test]
fn conversion_keeps_every_channel_value() {
    let mut server = MemoryServer::new(2, 2);
    let (_conn, img) = capture_two_by_two(&mut server);
    let out = img.to_interchange_image();
    for y in 0..2 {
        for x in 0..2 {
            let p = img.pixel_at(x, y).unwrap();
            assert_eq!(out.channels_at(x, y).unwrap(), (p.r, p.g, p.b));
        }
    }
}

#[test]
fn conversion_is_row_major_rgb() {
    let mut server = MemoryServer::new(2, 2);
    let (_conn, img) = capture_two_by_two(&mut server);
    let out = img.to_interchange_image();
    assert_eq!(out.width(), 2);
    assert_eq!(out.height(), 2);
    assert_eq!(out.into_bytes(), vec![30, 20, 10, 60, 50, 40, 90, 80, 70, 120, 110, 100]);
}

#[test]
fn release_destroys_exactly_once() {
    let mut server = MemoryServer::new(2, 2);
    let (_conn, img) = capture_two_by_two(&mut server);
    let handle = img.handle();
    assert_eq!(server.destroy_count(), 0);
    assert_eq!(server.live_image_count(), 1);
    img.release(&mut server);
    assert_eq!(server.destroy_count(), 1);
    assert_eq!(server.live_image_count(), 0);
    assert!(!server.image_is_live(handle));
    assert!(!server.destroy_image(handle));
    assert_eq!(server.destroy_count(), 1);
}

#[test]
fn out_of_range_pixel_reads_fail_loudly() {
    let mut server = MemoryServer::new(2, 2);
    let (_conn, img) = capture_two_by_two(&mut server);
    assert_eq!(img.pixel_at(2, 0).unwrap_err(), CaptureError::OutOfRangeAccess);
    assert_eq!(img.pixel_at(0, 2).unwrap_err(), CaptureError::OutOfRangeAccess);
    assert_eq!(img.pixel_at(-1, 0).unwrap_err(), CaptureError::OutOfRangeAccess);
    assert_eq!(img.pixel_at(0, -1).unwrap_err(), CaptureError::OutOfRangeAccess);
    assert_eq!(img.pixel_at(i32::MAX, i32::MAX).unwrap_err(), CaptureError::OutOfRangeAccess);
}

#[test]
fn out_of_range_interchange_reads_fail_loudly() {
    let mut server = MemoryServer::new(2, 2);
    let (_conn, img) = capture_two_by_two(&mut server);
    let out = img.to_interchange_image();
    assert_eq!(out.channels_at(2, 0).unwrap_err(), CaptureError::OutOfRangeAccess);
    assert_eq!(out.channels_at(0, 2).unwrap_err(), CaptureError::OutOfRangeAccess);
    assert_eq!(out.channels_at(-1, -1).unwrap_err(), CaptureError::OutOfRangeAccess);
}

#[test]
fn close_after_release_retires_the_connection() {
    let mut server = MemoryServer::new(2, 2);
    let (conn, img) = capture_two_by_two(&mut server);
    img.release(&mut server);
    conn.close(&mut server);
    assert_eq!(server.destroy_count(), 1);
}

#[test]
fn decode_rejects_wrong_length_and_accepts_exact() {
    let bytes = two_by_two_bytes();
    assert!(CapturedImage::from_bytes(0, 2, 2, &bytes).is_some());
    assert!(CapturedImage::from_bytes(0, 2, 1, &bytes).is_none());
    assert!(CapturedImage::from_bytes(0, 3, 2, &bytes).is_none());
    let img = CapturedImage::from_bytes(5, 1, 1, &vec![1, 2, 3, 4]).unwrap();
    assert_eq!(img.handle(), 5);
    assert_eq!(img.pixel_at(0, 0).unwrap(), bgr { b: 1, g: 2, r: 3, _pad: 4 });
}

#[test]
fn one_by_one_capture_bounds() {
    let mut server = MemoryServer::new(5, 5);
    server.push_reply(Some(vec![9, 8, 7, 0]));
    let conn = DisplayConnection::open(&mut server).unwrap();
    let img = conn.capture_area(&mut server, 1, 1, 0, 0).unwrap();
    assert_eq!(img.pixel_at(0, 0).unwrap(), bgr { b: 9, g: 8, r: 7, _pad: 0 });
    assert_eq!(img.pixel_at(1, 0).unwrap_err(), CaptureError::OutOfRangeAccess);
    assert_eq!(img.pixel_at(0, 1).unwrap_err(), CaptureError::OutOfRangeAccess);
}

#[test]
fn zero_sized_capture_has_no_pixels() {
    let mut server = MemoryServer::new(5, 5);
    server.push_reply(Some(Vec::new()));
    let conn = DisplayConnection::open(&mut server).unwrap();
    let img = conn.capture_area(&mut server, 0, 5, 0, 0).unwrap();
    assert_eq!(img.pixel_count(), 0);
    assert_eq!(img.pixel_at(0, 0).unwrap_err(), CaptureError::OutOfRangeAccess);
}

#[test]
fn negative_offsets_are_passed_through() {
    let mut server = MemoryServer::new(5, 5);
    server.push_reply(Some(vec![4, 5, 6, 0]));
    let conn = DisplayConnection::open(&mut server).unwrap();
    let img = conn.capture_area(&mut server, 1, 1, -5, -7).unwrap();
    assert_eq!(img.pixel_at(0, 0).unwrap(), bgr { b: 4, g: 5, r: 6, _pad: 0 });
}

#[test]
fn two_connections_capture_independently() {
    let mut server = MemoryServer::new(4, 4);
    let a = DisplayConnection::open(&mut server).unwrap();
    let b = DisplayConnection::open(&mut server).unwrap();
    server.push_reply(Some(vec![1u8; 4]));
    server.push_reply(Some(vec![2u8; 4]));
    let ia = a.capture_area(&mut server, 1, 1, 0, 0).unwrap();
    let ib = b.capture_area(&mut server, 1, 1, 0, 0).unwrap();
    assert_eq!(ia.pixel_at(0, 0).unwrap(), bgr { b: 1, g: 1, r: 1, _pad: 1 });
    assert_eq!(ib.pixel_at(0, 0).unwrap(), bgr { b: 2, g: 2, r: 2, _pad: 2 });
    assert_ne!(ia.handle(), ib.handle());
    assert_eq!(server.live_image_count(), 2);
    ia.release(&mut server);
    assert_eq!(server.live_image_count(), 1);
    ib.release(&mut server);
    assert_eq!(server.destroy_count(), 2);
    a.close(&mut server);
    b.close(&mut server);
}
