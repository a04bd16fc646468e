use hid_console::{ReaderAction, ReaderLoop};

#[test]
fn ten_bytes_read_publish_exactly_ten_bytes() {
    let mut r = ReaderLoop::new(64);
    let mut buf = r.new_buffer();
    assert_eq!(buf.len(), 64);
    assert!(r.check_cancel(false));
    for (i, b) in buf.iter_mut().enumerate().take(10) {
        *b = i as u8 + 1;
    }
    let action = r.on_read(&buf, Ok(10));
    assert_eq!(action, ReaderAction::Publish(vec![1, 2, 3, 4, 5, 6, 7, 8, 9, 10]));
    assert!(r.is_running());
    assert_eq!(r.frame_size(), 64);
}

#[test]
fn buffer_is_zeroed_frame_size() {
    let r = ReaderLoop::new(8);
    assert_eq!(r.new_buffer(), vec![0u8; 8]);
}

#[test]
fn timeout_keeps_polling() {
    let mut r = ReaderLoop::new(4);
    let buf = r.new_buffer();
    assert!(r.check_cancel(false));
    assert_eq!(r.on_read(&buf, Ok(0)), ReaderAction::Idle);
    assert!(r.is_running());
    assert!(r.check_cancel(false));
}

#[test]
fn read_error_stops_for_good() {
    let mut r = ReaderLoop::new(4);
    let buf = r.new_buffer();
    assert!(r.check_cancel(false));
    assert_eq!(r.on_read(&buf, Err(())), ReaderAction::Stop);
    assert!(!r.is_running());
    assert!(!r.check_cancel(false));
}

#[test]
fn cancellation_stops_before_the_next_read() {
    let mut r = ReaderLoop::new(4);
    assert!(r.check_cancel(false));
    assert!(!r.check_cancel(true));
    assert!(!r.is_running());
    assert!(!r.check_cancel(false));
    assert!(!r.check_cancel(false));
}

#[test]
fn full_frame_is_published_whole() {
    let mut r = ReaderLoop::new(3);
    let buf = vec![7u8, 8, 9];
    assert!(r.check_cancel(false));
    assert_eq!(r.on_read(&buf, Ok(3)), ReaderAction::Publish(vec![7, 8, 9]));
}
