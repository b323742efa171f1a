use rtc::{Animator, Frame};
use std::cell::RefCell;

#[test]
fn file_name_pads_the_frame_number() {
    let frame = Frame::new(7, 10);
    assert_eq!("out/frame00007.png", frame.file_name("out/", "frame", "png"));
    assert_eq!(7, frame.current());
    assert_eq!(10, frame.count());
}

#[test]
fn file_name_keeps_long_numbers_whole() {
    assert_eq!("a00000.ppm", Frame::new(0, 1).file_name("", "a", "ppm"));
    assert_eq!("a99999.ppm", Frame::new(99999, 100000).file_name("", "a", "ppm"));
    assert_eq!("/tmp/b123456.x", Frame::new(123456, 200000).file_name("/tmp/", "b", "x"));
}

#[test]
fn animate_visits_every_frame_in_order() {
    let seen = RefCell::new(Vec::new());
    let animator = Animator::new(3);
    animator.animate(|frame: Frame| seen.borrow_mut().push((frame.current(), frame.count())));
    assert_eq!(vec![(0, 3), (1, 3), (2, 3)], seen.into_inner());
}

#[test]
fn animate_without_frames_does_nothing() {
    let seen = RefCell::new(0);
    Animator::new(0).animate(|_frame: Frame| *seen.borrow_mut() += 1);
    assert_eq!(0, seen.into_inner());
}
