use embrio::future::Future;
use embrio::sink::{forward, ForwardState, VecSink, VecStream};
use embrio::timer::Timer;
use embrio::{filter, filter_map, first, EmbrioWaker, Poll, Stream};

#[test]
fn filter_skips_failing_items_in_one_advance() {
    let mut w = EmbrioWaker::new();
    let mut s = filter(VecStream::new(vec![1u32, 2, 3, 5, 4]), |x: &u32| x % 2 == 0);
    assert_eq!(s.poll_next(&mut w), Poll::Ready(Some(2)));
    assert_eq!(s.poll_next(&mut w), Poll::Ready(Some(4)));
    assert!(!w.test_and_clear());
    assert_eq!(s.poll_next(&mut w), Poll::Ready(None));
}

#[test]
fn filter_passes_suspension_through() {
    let mut w = EmbrioWaker::new();
    let mut s = filter(Timer::new().interval(1), |_: &()| true);
    assert_eq!(s.poll_next(&mut w), Poll::Pending);
    s.inner.tick(&mut w);
    assert!(w.test_and_clear());
    assert_eq!(s.poll_next(&mut w), Poll::Ready(Some(())));
}

#[test]
fn filter_map_keeps_images() {
    let mut w = EmbrioWaker::new();
    let mut s = filter_map(VecStream::new(vec![6u32, 7, 9, 10]), |x: u32| if x % 2 == 0 { Some(x / 2) } else { None });
    assert_eq!(s.poll_next(&mut w), Poll::Ready(Some(3)));
    assert_eq!(s.poll_next(&mut w), Poll::Ready(Some(5)));
    assert!(!w.test_and_clear());
    assert_eq!(s.poll_next(&mut w), Poll::Ready(None));
}

#[test]
fn interval_yields_each_period() {
    let mut w = EmbrioWaker::new();
    let mut s = Timer::new().interval(2);
    assert_eq!(s.poll_next(&mut w), Poll::Pending);
    s.tick(&mut w);
    assert!(!w.test_and_clear());
    s.tick(&mut w);
    assert!(w.test_and_clear());
    assert_eq!(s.poll_next(&mut w), Poll::Ready(Some(())));
    assert_eq!(s.poll_next(&mut w), Poll::Pending);
    s.tick(&mut w);
    s.tick(&mut w);
    assert_eq!(s.poll_next(&mut w), Poll::Ready(Some(())));
}

#[test]
fn first_of_interval_completes_on_event() {
    let mut w = EmbrioWaker::new();
    let mut f = first(Timer::new().interval(1));
    assert_eq!(f.poll(&mut w), Poll::Pending);
    f.inner.tick(&mut w);
    assert!(w.test_and_clear());
    assert_eq!(f.poll(&mut w), Poll::Ready(()));
}

#[test]
fn forward_sums_like_a_sink() {
    let mut w = EmbrioWaker::new();
    let mut pump = forward(VecStream::new(vec![5u32, 6]), VecSink::new());
    let mut advances = 0;
    loop {
        advances += 1;
        match pump.poll(&mut w) {
            Poll::Ready(r) => {
                assert_eq!(r, Ok(()));
                break;
            },
            Poll::Pending => panic!("a ready stream and a ready sink do not suspend"),
        }
    }
    assert_eq!(pump.phase(), ForwardState::Done);
    let (_, sink) = pump.into_parts();
    let items = sink.into_items();
    assert_eq!(items, vec![5, 6]);
    assert_eq!(items.iter().sum::<u32>() + 7, 18);
    assert_eq!(advances, 1);
}
