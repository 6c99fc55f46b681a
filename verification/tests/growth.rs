use std::cell::RefCell;

use maa_sys::Error;
use maa_sys::growth::IMAGE_INIT_SIZE;
use maa_sys::growth::IMAGE_MAX_SIZE;
use maa_sys::growth::UUID_INIT_SIZE;
use maa_sys::growth::UUID_MAX_SIZE;
use maa_sys::growth::UuidProbe;
use maa_sys::growth::get_image_with;
use maa_sys::growth::get_uuid_bytes_with;
use maa_sys::growth::get_uuid_with;
use maa_sys::growth::truncate_to_reported;
use maa_sys::growth::uuid_probe_outcome;

#[test]
fn image_growth_doubles_once_for_an_eight_mebibyte_frame() {
    let attempts: RefCell<Vec<usize>> = RefCell::new(Vec::new());
    let eight = 8 * 1024 * 1024;
    let probe = |size: usize| {
        attempts.borrow_mut().push(size);
        if size >= eight { Some(eight as u64) } else { None }
    };
    let r = get_image_with(&probe);
    assert_eq!(r, Ok(eight as u64));
    // Doubled from the initial four mebibytes exactly once.
    assert_eq!(*attempts.borrow(), vec![IMAGE_INIT_SIZE, eight]);
}

#[test]
fn image_growth_never_allocates_past_the_ceiling() {
    let attempts: RefCell<Vec<usize>> = RefCell::new(Vec::new());
    let probe = |size: usize| {
        attempts.borrow_mut().push(size);
        None
    };
    let r = get_image_with(&probe);
    assert_eq!(r, Err(Error::ContentTooLarge(IMAGE_MAX_SIZE)));
    let seen = attempts.borrow();
    assert_eq!(
        *seen,
        vec![
            4 * 1024 * 1024,
            8 * 1024 * 1024,
            16 * 1024 * 1024,
            32 * 1024 * 1024,
        ]
    );
    for s in seen.iter() {
        assert!(*s <= IMAGE_MAX_SIZE);
    }
}

#[test]
fn uuid_growth_gives_up_past_one_mebibyte() {
    let attempts: RefCell<Vec<usize>> = RefCell::new(Vec::new());
    let probe = |size: usize| {
        attempts.borrow_mut().push(size);
        UuidProbe::TooSmall
    };
    // A permanent "too small" signal must end in `Unknown`, never loop.
    let r = get_uuid_bytes_with(&probe);
    assert_eq!(r, Err(Error::Unknown));
    let seen = attempts.borrow();
    assert_eq!(seen[0], UUID_INIT_SIZE);
    for s in seen.iter() {
        assert!(*s <= UUID_MAX_SIZE);
    }
    assert_eq!(*seen.last().unwrap(), UUID_MAX_SIZE);
}

#[test]
fn uuid_bytes_decode_to_text() {
    let probe = |size: usize| {
        if size >= 2048 {
            UuidProbe::Data(b"9c3bee3f-a472".to_vec())
        } else {
            UuidProbe::TooSmall
        }
    };
    let r = get_uuid_with(&probe);
    assert_eq!(r, Ok("9c3bee3f-a472".to_string()));
}

#[test]
fn reported_length_cuts_the_buffer() {
    let buf: Vec<u8> = vec![1, 2, 3, 4, 5];
    assert_eq!(truncate_to_reported(buf.clone(), 3), vec![1, 2, 3]);
    assert_eq!(truncate_to_reported(buf.clone(), 0), Vec::<u8>::new());
    // A report past the end keeps the buffer whole.
    assert_eq!(truncate_to_reported(buf.clone(), 9), buf);
}

#[test]
fn only_the_sentinel_means_too_small() {
    let buf: Vec<u8> = b"9c3bee3f".to_vec();
    let null_size = u64::MAX;
    assert!(matches!(
        uuid_probe_outcome(buf.clone(), null_size, null_size),
        UuidProbe::TooSmall
    ));
    match uuid_probe_outcome(buf.clone(), 4, null_size) {
        UuidProbe::Data(b) => assert_eq!(b, b"9c3b".to_vec()),
        UuidProbe::TooSmall => panic!("a non-sentinel count is success"),
    }
    // Even a zero count is success, not a size signal.
    match uuid_probe_outcome(buf, 0, null_size) {
        UuidProbe::Data(b) => assert_eq!(b, Vec::<u8>::new()),
        UuidProbe::TooSmall => panic!("a non-sentinel count is success"),
    }
}
