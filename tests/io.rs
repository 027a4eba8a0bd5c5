use embrio::gpio::Gpio;
use embrio::gpio::Pin;
use embrio::uart::Uart;
use embrio::read_exact::Error as ReadExactError;
use embrio::write_all::Error as WriteAllError;
use embrio::{
    close, flush, read_exact, read_until, sink, void, write_all, BufRead, BufReader, Cursor, EmbrioWaker, Poll,
    Read, Write,
};

#[test]
fn cursor_writes_what_fits() {
    let mut w = EmbrioWaker::new();
    let mut c = Cursor::new(vec![0u8; 5]);
    assert_eq!(c.poll_write(&mut w, b"abc"), Poll::Ready(Ok(3)));
    assert_eq!(c.position(), 3);
    assert_eq!(c.poll_write(&mut w, b"defg"), Poll::Ready(Ok(2)));
    assert_eq!(c.position(), 5);
    assert_eq!(c.poll_write(&mut w, b"h"), Poll::Ready(Ok(0)));
    assert_eq!(c.get_ref(), &b"abcde".to_vec());
    assert_eq!(c.into_inner(), b"abcde".to_vec());
}

#[test]
fn cursor_write_str_and_get_mut() {
    let mut c = Cursor::new(vec![b'.'; 8]);
    c.write_str("hi ");
    c.write_str("you");
    assert_eq!(c.position(), 6);
    c.get_mut()[7] = b'!';
    assert_eq!(c.get_ref(), &b"hi you.!".to_vec());
}

#[test]
fn void_and_sink_take_everything() {
    let mut w = EmbrioWaker::new();
    let mut v = void();
    assert_eq!(v.poll_write(&mut w, b"hello"), Poll::Ready(Ok(5)));
    assert_eq!(v.poll_flush(&mut w), Poll::Ready(Ok(())));
    assert_eq!(v.poll_close(&mut w), Poll::Ready(Ok(())));
    let mut s = sink();
    assert_eq!(s.poll_write(&mut w, b"hi"), Poll::Ready(Ok(2)));
    assert_eq!(flush(&mut s, &mut w), Poll::Ready(Ok(())));
    assert_eq!(close(&mut s, &mut w), Poll::Ready(Ok(())));
}

#[test]
fn slice_reader_reads_from_front() {
    let mut w = EmbrioWaker::new();
    let mut src: &[u8] = b"hello";
    let mut buf = [0u8; 3];
    assert_eq!(src.poll_read(&mut w, &mut buf), Poll::Ready(Ok(3)));
    assert_eq!(&buf, b"hel");
    assert_eq!(src.poll_read(&mut w, &mut buf), Poll::Ready(Ok(2)));
    assert_eq!(&buf, b"lol");
    assert_eq!(src.poll_read(&mut w, &mut buf), Poll::Ready(Ok(0)));
}

#[test]
fn exhausted_buffered_source_reports_zero_length() {
    let mut w = EmbrioWaker::new();
    let mut r = BufReader::new(&b""[..], vec![0u8; 4]);
    let mut buf = [0u8; 4];
    assert_eq!(r.poll_read(&mut w, &mut buf), Poll::Ready(Ok(0)));
    assert_eq!(r.poll_fill_buf(&mut w), Poll::Ready(Ok(0)));
}

#[test]
fn buffered_source_suspends_while_nothing_arrived() {
    let mut w = EmbrioWaker::new();
    let mut r = BufReader::new(Uart::new(), vec![0u8; 4]);
    let mut buf = [0u8; 4];
    assert_eq!(r.poll_read(&mut w, &mut buf), Poll::Pending);
    assert!(!w.test_and_clear());
}

#[test]
fn uart_reader_wakes_on_received_byte() {
    let mut w = EmbrioWaker::new();
    let mut u = Uart::new();
    let mut buf = [0u8; 2];
    assert_eq!(u.poll_read(&mut w, &mut buf), Poll::Pending);
    u.interrupt(Some(b'q'), false, &mut w);
    assert!(w.test_and_clear());
    assert_eq!(u.poll_read(&mut w, &mut buf), Poll::Ready(Ok(1)));
    assert_eq!(buf[0], b'q');
    assert_eq!(u.poll_read(&mut w, &mut buf), Poll::Pending);
    assert_eq!(u.poll_read(&mut w, &mut []), Poll::Ready(Ok(0)));
}

#[test]
fn buffered_bytes_are_offered_while_source_suspends() {
    let mut w = EmbrioWaker::new();
    let mut u = Uart::new();
    u.interrupt(Some(b'x'), false, &mut w);
    let mut r = BufReader::new(u, vec![0u8; 8]);
    assert_eq!(r.poll_fill_buf(&mut w), Poll::Ready(Ok(1)));
    assert_eq!(r.available(), b"x");
    assert_eq!(r.poll_fill_buf(&mut w), Poll::Ready(Ok(1)));
    assert_eq!(r.available(), b"x");
    r.consume(1);
    assert_eq!(r.available(), b"");
    assert_eq!(r.poll_fill_buf(&mut w), Poll::Pending);
}

#[test]
fn read_exact_fills_across_suspensions() {
    let mut w = EmbrioWaker::new();
    let mut u = Uart::new();
    let mut buf = [0u8; 3];
    let mut pos = 0;
    assert_eq!(read_exact(&mut u, &mut w, &mut buf, &mut pos), Poll::Pending);
    for (i, b) in b"abc".iter().enumerate() {
        u.interrupt(Some(*b), false, &mut w);
        assert!(w.test_and_clear());
        let r = read_exact(&mut u, &mut w, &mut buf, &mut pos);
        assert_eq!(pos, i + 1);
        if i < 2 {
            assert_eq!(r, Poll::Pending);
        } else {
            assert_eq!(r, Poll::Ready(Ok(())));
        }
    }
    assert_eq!(&buf, b"abc");
}

#[test]
fn read_exact_reports_early_end() {
    let mut w = EmbrioWaker::new();
    let mut src: &[u8] = b"ab";
    let mut buf = [0u8; 3];
    let mut pos = 0;
    assert_eq!(read_exact(&mut src, &mut w, &mut buf, &mut pos), Poll::Ready(Err(ReadExactError::UnexpectedEof)));
    assert_eq!(pos, 2);
}

#[test]
fn write_all_reports_write_zero() {
    let mut w = EmbrioWaker::new();
    let mut c = Cursor::new(vec![0u8; 4]);
    let mut pos = 0;
    assert_eq!(write_all(&mut c, &mut w, b"abc", &mut pos), Poll::Ready(Ok(())));
    assert_eq!(pos, 3);
    let mut pos = 0;
    assert_eq!(write_all(&mut c, &mut w, b"xyz", &mut pos), Poll::Ready(Err(WriteAllError::WriteZero)));
    assert_eq!(pos, 1);
    assert_eq!(c.into_inner(), b"abcx".to_vec());
    let mut pos = 0;
    assert_eq!(write_all(&mut void(), &mut w, b"", &mut pos), Poll::Ready(Ok(())));
}

#[test]
fn uart_transmits_queued_bytes_on_events() {
    let mut w = EmbrioWaker::new();
    let gpio = Gpio::new();
    let tx = Pin::new(&gpio, 24).output();
    let rx = Pin::new(&gpio, 25).input();
    let mut u = Uart::new();
    u.init(&tx, &rx, 0x01D7E000);
    let mut pos = 0;
    assert_eq!(write_all(&mut u, &mut w, b"hello", &mut pos), Poll::Pending);
    assert_eq!(flush(&mut u, &mut w), Poll::Pending);
    u.interrupt(None, true, &mut w);
    assert!(w.test_and_clear());
    assert_eq!(write_all(&mut u, &mut w, b"hello", &mut pos), Poll::Ready(Ok(())));
    assert_eq!(pos, 5);
    for _ in 0..4 {
        u.interrupt(None, true, &mut w);
        assert!(!w.test_and_clear());
    }
    assert_eq!(flush(&mut u, &mut w), Poll::Pending);
    u.interrupt(None, true, &mut w);
    assert!(w.test_and_clear());
    assert_eq!(flush(&mut u, &mut w), Poll::Ready(Ok(())));
    assert_eq!(close(&mut u, &mut w), Poll::Ready(Ok(())));
    assert_eq!(u.poll_write(&mut w, b"0123456789ab"), Poll::Ready(Ok(9)));
    assert_eq!(u.poll_write(&mut w, b""), Poll::Ready(Ok(0)));
}

#[test]
fn error_from_wraps_other() {
    assert_eq!(ReadExactError::from(3u8), ReadExactError::Other(3u8));
    assert_eq!(WriteAllError::from(4u8), WriteAllError::Other(4u8));
}

#[test]
fn read_until_stops_after_delimiter() {
    let mut w = EmbrioWaker::new();
    let mut r = BufReader::new(Uart::new(), vec![0u8; 8]);
    let mut buf = [0u8; 8];
    let mut pos = 0;
    assert_eq!(read_until(&mut r, &mut w, b'\n', &mut buf, &mut pos), Poll::Pending);
    assert_eq!(pos, 0);
    let mut r = BufReader::new(&b"abc\nde"[..], vec![0u8; 8]);
    let mut pos = 0;
    assert_eq!(read_until(&mut r, &mut w, b'\n', &mut buf, &mut pos), Poll::Ready(Ok(Ok(4))));
    assert_eq!(&buf[..4], b"abc\n");
    assert_eq!(r.available(), b"de");
}

#[test]
fn read_until_reports_full_buffer() {
    let mut w = EmbrioWaker::new();
    let mut r = BufReader::new(&b"abcdef\n"[..], vec![0u8; 16]);
    let mut buf = [0u8; 4];
    let mut pos = 0;
    assert_eq!(read_until(&mut r, &mut w, b'\n', &mut buf, &mut pos), Poll::Ready(Ok(Err(4))));
    assert_eq!(&buf, b"abcd");
}

#[test]
fn read_until_stops_at_end_of_input() {
    let mut w = EmbrioWaker::new();
    let mut r = BufReader::new(&b"xy"[..], vec![0u8; 16]);
    let mut buf = [0u8; 4];
    let mut pos = 0;
    assert_eq!(read_until(&mut r, &mut w, b'\n', &mut buf, &mut pos), Poll::Ready(Ok(Ok(2))));
    assert_eq!(&buf[..2], b"xy");
    let mut pos = 0;
    assert_eq!(read_until(&mut r, &mut w, b'\n', &mut buf, &mut pos), Poll::Ready(Ok(Ok(0))));
}

#[test]
fn uart_write_in_flight_suspends_and_keeps_queue() {
    let mut w = EmbrioWaker::new();
    let mut u = Uart::new();
    u.interrupt(None, true, &mut w);
    assert_eq!(u.poll_write(&mut w, b"abc"), Poll::Ready(Ok(3)));
    assert_eq!(u.poll_write(&mut w, b"xyz"), Poll::Pending);
    u.interrupt(None, true, &mut w);
    u.interrupt(None, true, &mut w);
    assert!(!w.test_and_clear());
    u.interrupt(None, true, &mut w);
    assert!(w.test_and_clear());
    assert_eq!(u.poll_write(&mut w, b"xyz"), Poll::Ready(Ok(3)));
}

#[test]
fn exhausted_slice_stays_empty() {
    let mut w = EmbrioWaker::new();
    let mut src: &[u8] = b"";
    let mut buf = [7u8; 4];
    assert_eq!(src.poll_read(&mut w, &mut buf), Poll::Ready(Ok(0)));
    assert_eq!(buf, [7u8; 4]);
    assert!(src.is_empty());
}

#[test]
fn write_all_resumes_after_partial_write() {
    let mut w = EmbrioWaker::new();
    let mut u = Uart::new();
    u.interrupt(None, true, &mut w);
    let data = b"0123456789abc";
    let mut pos = 0;
    assert_eq!(write_all(&mut u, &mut w, data, &mut pos), Poll::Pending);
    assert_eq!(pos, 9);
    for _ in 0..8 {
        u.interrupt(None, true, &mut w);
    }
    assert!(!w.test_and_clear());
    u.interrupt(None, true, &mut w);
    assert!(w.test_and_clear());
    assert_eq!(write_all(&mut u, &mut w, data, &mut pos), Poll::Ready(Ok(())));
    assert_eq!(pos, 13);
}

#[test]
fn read_until_across_fills() {
    let mut w = EmbrioWaker::new();
    let mut u = Uart::new();
    u.interrupt(Some(b'a'), false, &mut w);
    let mut r = BufReader::new(u, vec![0u8; 8]);
    let mut buf = [0u8; 8];
    let mut pos = 0;
    assert_eq!(read_until(&mut r, &mut w, b'\n', &mut buf, &mut pos), Poll::Pending);
    assert_eq!(pos, 1);
    assert_eq!(&buf[..1], b"a");
}
