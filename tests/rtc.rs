use std::sync::atomic::{AtomicUsize, Ordering};
use std::sync::Arc;

use driver_binding::error::{Error, EINVAL, ENOENT};
use driver_binding::rtc::{
    read_time_callback, set_time_callback, Registration, Rtc, RtcClassOps, RtcTime,
};

/// Counts drops; holds the time it reports.
struct Clock {
    drops: Arc<AtomicUsize>,
    now: i32,
}

impl Drop for Clock {
    fn drop(&mut self) {
        self.drops.fetch_add(1, Ordering::SeqCst);
    }
}

/// Reads the time; refuses to set a negative year.
struct FullRtc;

impl Rtc for FullRtc {
    type Data = Clock;
    const HAS_READ_TIME: bool = true;
    const HAS_SET_TIME: bool = true;

    fn read_time(data: &Clock, time: &mut RtcTime) -> Result<(), Error> {
        time.set_sec(data.now);
        Ok(())
    }

    fn set_time(_data: &Clock, time: &RtcTime) -> Result<(), Error> {
        if time.year() < 0 {
            Err(Error::einval())
        } else {
            Ok(())
        }
    }
}

/// Only reads the time.
struct ReadOnlyRtc;

impl Rtc for ReadOnlyRtc {
    type Data = u8;
    const HAS_READ_TIME: bool = true;
    const HAS_SET_TIME: bool = false;

    fn read_time(_data: &u8, _time: &mut RtcTime) -> Result<(), Error> {
        Ok(())
    }

    fn set_time(_data: &u8, _time: &RtcTime) -> Result<(), Error> {
        Err(Error::einval())
    }
}

fn clock(drops: &Arc<AtomicUsize>, now: i32) -> Clock {
    Clock { drops: drops.clone(), now }
}

#[test]
fn new_registration_is_unregistered() {
    let r = Registration::<FullRtc>::new().unwrap();
    assert!(!r.is_registered());
    assert!(r.rtc_device().is_none());
}

#[test]
fn register_installs_data_and_callbacks() {
    let drops = Arc::new(AtomicUsize::new(0));
    let mut r = Registration::<FullRtc>::new().unwrap();
    assert_eq!(r.register(7, clock(&drops, 42), Ok(()), 0), Ok(()));
    assert!(r.is_registered());
    let dev = r.rtc_device().unwrap();
    assert_eq!(dev.ops, RtcClassOps { read_time: true, set_time: true });
    assert!(dev.registered);
    assert_eq!(dev.drvdata.as_ref().unwrap().now, 42);
    assert_eq!(drops.load(Ordering::SeqCst), 0);
}

#[test]
fn only_provided_callbacks_are_installed() {
    let mut r = Registration::<ReadOnlyRtc>::new().unwrap();
    assert_eq!(r.register(1, 0u8, Ok(()), 0), Ok(()));
    assert_eq!(r.rtc_device().unwrap().ops, RtcClassOps { read_time: true, set_time: false });
}

#[test]
fn second_register_is_refused() {
    let drops = Arc::new(AtomicUsize::new(0));
    let mut r = Registration::<FullRtc>::new().unwrap();
    assert_eq!(r.register(7, clock(&drops, 1), Ok(()), 0), Ok(()));
    let e = r.register(8, clock(&drops, 2), Ok(()), 0).unwrap_err();
    assert_eq!(e.to_kernel_errno(), EINVAL);
    assert!(r.is_registered());
    assert_eq!(r.rtc_device().unwrap().drvdata.as_ref().unwrap().now, 1);
    // Only the refused data was finalized.
    assert_eq!(drops.load(Ordering::SeqCst), 1);
}

#[test]
fn failed_finalization_releases_data() {
    let drops = Arc::new(AtomicUsize::new(0));
    let mut r = Registration::<FullRtc>::new().unwrap();
    let e = r.register(7, clock(&drops, 1), Ok(()), ENOENT).unwrap_err();
    assert_eq!(e.to_kernel_errno(), ENOENT);
    assert_eq!(drops.load(Ordering::SeqCst), 1);
    assert!(!r.is_registered());
    let dev = r.rtc_device().unwrap();
    assert!(dev.drvdata.is_none());
    assert!(!dev.registered);
}

#[test]
fn failed_allocation_is_returned() {
    let drops = Arc::new(AtomicUsize::new(0));
    let mut r = Registration::<FullRtc>::new().unwrap();
    let e = r.register(7, clock(&drops, 1), Err(Error::from_kernel_errno(-12)), 0).unwrap_err();
    assert_eq!(e.to_kernel_errno(), -12);
    assert!(r.rtc_device().is_none());
    assert!(!r.is_registered());
    assert_eq!(drops.load(Ordering::SeqCst), 1);
}

#[test]
fn callbacks_borrow_registered_data() {
    let drops = Arc::new(AtomicUsize::new(0));
    let mut r = Registration::<FullRtc>::new().unwrap();
    assert_eq!(r.register(7, clock(&drops, 33), Ok(()), 0), Ok(()));
    let dev = r.rtc_device().unwrap();
    let mut t = RtcTime::new();
    assert_eq!(read_time_callback::<FullRtc>(dev, &mut t), 0);
    assert_eq!(t.sec(), 33);
    t.set_year(-1);
    assert_eq!(set_time_callback::<FullRtc>(dev, &t), EINVAL);
    t.set_year(124);
    assert_eq!(set_time_callback::<FullRtc>(dev, &t), 0);
    assert_eq!(drops.load(Ordering::SeqCst), 0);
}

#[test]
fn time_accessors() {
    let mut t = RtcTime::new();
    t.set_sec(1);
    t.set_min(2);
    t.set_hour(3);
    t.set_mday(4);
    t.set_mon(5);
    t.set_year(6);
    t.set_wday(0);
    t.set_yday(8);
    t.set_isdst(1);
    assert_eq!(
        (t.sec(), t.min(), t.hour(), t.mday(), t.mon(), t.year(), t.wday(), t.yday(), t.isdst()),
        (1, 2, 3, 4, 5, 6, 0, 8, 1)
    );
}
