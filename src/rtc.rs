//! Real time clocks: the time record, the driver trait and the registration
//! state machine.
use vstd::prelude::*;
use crate::error::{Error, EINVAL, from_unit_result, is_errno, unit_ret};

verus! {

/// RTC time, as the host's record holds it.
#[derive(Clone, Copy, Debug, PartialEq, Eq)]
pub struct RtcTime {
    pub tm_sec: i32,
    pub tm_min: i32,
    pub tm_hour: i32,
    pub tm_mday: i32,
    pub tm_mon: i32,
    pub tm_year: i32,
    pub tm_wday: i32,
    pub tm_yday: i32,
    pub tm_isdst: i32,
}

impl RtcTime {
    /// A time record with every field zero.
    pub fn new() -> (r: RtcTime)
        ensures
            r.tm_sec == 0 && r.tm_min == 0 && r.tm_hour == 0,
            r.tm_mday == 0 && r.tm_mon == 0 && r.tm_year == 0,
            r.tm_wday == 0 && r.tm_yday == 0 && r.tm_isdst == 0,
    {
        RtcTime {
            tm_sec: 0,
            tm_min: 0,
            tm_hour: 0,
            tm_mday: 0,
            tm_mon: 0,
            tm_year: 0,
            tm_wday: 0,
            tm_yday: 0,
            tm_isdst: 0,
        }
    }

    /// Seconds.
    pub fn sec(&self) -> (r: i32)
        ensures
            r == self.tm_sec,
    {
        self.tm_sec
    }

    /// Sets the seconds.
    pub fn set_sec(&mut self, sec: i32)
        ensures
            *final(self) == (RtcTime { tm_sec: sec, ..*old(self) }),
    {
        self.tm_sec = sec;
    }

    /// Minutes.
    pub fn min(&self) -> (r: i32)
        ensures
            r == self.tm_min,
    {
        self.tm_min
    }

    /// Sets the minutes.
    pub fn set_min(&mut self, min: i32)
        ensures
            *final(self) == (RtcTime { tm_min: min, ..*old(self) }),
    {
        self.tm_min = min;
    }

    /// Hours.
    pub fn hour(&self) -> (r: i32)
        ensures
            r == self.tm_hour,
    {
        self.tm_hour
    }

    /// Sets the hours.
    pub fn set_hour(&mut self, hour: i32)
        ensures
            *final(self) == (RtcTime { tm_hour: hour, ..*old(self) }),
    {
        self.tm_hour = hour;
    }

    /// Day of month.
    pub fn mday(&self) -> (r: i32)
        ensures
            r == self.tm_mday,
    {
        self.tm_mday
    }

    /// Sets the day of month.
    pub fn set_mday(&mut self, mday: i32)
        ensures
            *final(self) == (RtcTime { tm_mday: mday, ..*old(self) }),
    {
        self.tm_mday = mday;
    }

    /// Month.
    pub fn mon(&self) -> (r: i32)
        ensures
            r == self.tm_mon,
    {
        self.tm_mon
    }

    /// Sets the month.
    pub fn set_mon(&mut self, mon: i32)
        ensures
            *final(self) == (RtcTime { tm_mon: mon, ..*old(self) }),
    {
        self.tm_mon = mon;
    }

    /// Year.
    pub fn year(&self) -> (r: i32)
        ensures
            r == self.tm_year,
    {
        self.tm_year
    }

    /// Sets the year.
    pub fn set_year(&mut self, year: i32)
        ensures
            *final(self) == (RtcTime { tm_year: year, ..*old(self) }),
    {
        self.tm_year = year;
    }

    /// Day of week.
    pub fn wday(&self) -> (r: i32)
        ensures
            r == self.tm_wday,
    {
        self.tm_wday
    }

    /// Sets the day of week.
    pub fn set_wday(&mut self, wday: i32)
        ensures
            *final(self) == (RtcTime { tm_wday: wday, ..*old(self) }),
    {
        self.tm_wday = wday;
    }

    /// Day of year.
    pub fn yday(&self) -> (r: i32)
        ensures
            r == self.tm_yday,
    {
        self.tm_yday
    }

    /// Sets the day of year.
    pub fn set_yday(&mut self, yday: i32)
        ensures
            *final(self) == (RtcTime { tm_yday: yday, ..*old(self) }),
    {
        self.tm_yday = yday;
    }

    /// Daylight saving time.
    pub fn isdst(&self) -> (r: i32)
        ensures
            r == self.tm_isdst,
    {
        self.tm_isdst
    }

    /// Sets the daylight saving time.
    pub fn set_isdst(&mut self, isdst: i32)
        ensures
            *final(self) == (RtcTime { tm_isdst: isdst, ..*old(self) }),
    {
        self.tm_isdst = isdst;
    }
}

/// A real time clock driver.
pub trait Rtc {
    /// Context data passed to each operation.
    type Data: Send + Sync;

    /// Whether the driver reads the time.
    const HAS_READ_TIME: bool;

    /// Whether the driver sets the time.
    const HAS_SET_TIME: bool;

    /// Reads the date and time from the RTC.
    fn read_time(data: &Self::Data, time: &mut RtcTime) -> Result<(), Error>;

    /// Sets the date and time of the RTC.
    fn set_time(data: &Self::Data, time: &RtcTime) -> Result<(), Error>;
}


/// The callback table the host calls through: which operations are
/// installed.
#[derive(Clone, Copy, Debug, PartialEq, Eq)]
pub struct RtcClassOps {
    pub read_time: bool,
    pub set_time: bool,
}

/// The host's RTC device: its callback table, its private-data slot and
/// whether the host finished registering it.
pub struct RtcDevice<D> {
    pub ops: RtcClassOps,
    pub drvdata: Option<D>,
    pub registered: bool,
}

/// A registration of a real time clock with the host.
pub struct Registration<T: Rtc> {
    rtc: Option<RtcDevice<T::Data>>,
    ops: RtcClassOps,
    parent: Option<u64>,
}

/// The callback table for driver `T`: an entry only for each operation the
/// driver provides.
pub open spec fn ops_for<T: Rtc>() -> RtcClassOps {
    RtcClassOps { read_time: T::HAS_READ_TIME, set_time: T::HAS_SET_TIME }
}

impl<T: Rtc> Registration<T> {
    /// The host device, once allocated.
    pub closed spec fn device(&self) -> Option<RtcDevice<T::Data>> {
        self.rtc
    }

    /// The callback table the registration holds.
    pub closed spec fn ops(&self) -> RtcClassOps {
        self.ops
    }

    /// The parent device, once registered.
    pub closed spec fn parent(&self) -> Option<u64> {
        self.parent
    }

    /// Whether the clock is registered.
    pub open spec fn registered(&self) -> bool {
        self.parent() is Some
    }

    /// Creates a registration that is not registered yet.
    pub fn new() -> (r: Result<Registration<T>, Error>)
        ensures
            r is Ok,
            r->Ok_0.device() is None,
            r->Ok_0.parent() is None,
            r->Ok_0.ops() == (RtcClassOps { read_time: false, set_time: false }),
    {
        Ok(Registration {
            rtc: None,
            ops: RtcClassOps { read_time: false, set_time: false },
            parent: None,
        })
    }

    /// Registers the clock under `parent`, with `data` as the driver's
    /// context. `allocated` is the outcome of the host's allocation of the
    /// device and `finalize_ret` the return code of the host's final
    /// registration step.
    ///
    /// A second registration fails with `EINVAL` and changes nothing. A
    /// failed allocation is returned as is. Where the host rejects the final
    /// step, `data` is taken back out of the device's slot and finalized,
    /// and the host's error returned.
    pub fn register(
        &mut self,
        parent: u64,
        data: T::Data,
        allocated: Result<(), Error>,
        finalize_ret: i32,
    ) -> (r: Result<(), Error>)
        ensures
            old(self).registered() ==> r is Err && r->Err_0.errno() == EINVAL && *final(self)
                == *old(self),
            !old(self).registered() ==> final(self).ops() == ops_for::<T>(),
            !old(self).registered() && allocated is Err ==> r == allocated && final(self).device()
                == old(self).device() && final(self).parent() is None,
            !old(self).registered() && allocated is Ok && finalize_ret < 0 ==> {
                &&& r is Err
                &&& is_errno(finalize_ret) ==> r->Err_0.errno() == finalize_ret
                &&& !is_errno(finalize_ret) ==> r->Err_0.errno() == EINVAL
                &&& final(self).device() is Some
                &&& final(self).device()->Some_0.drvdata is None
                &&& !final(self).device()->Some_0.registered
                &&& final(self).parent() is None
            },
            !old(self).registered() && allocated is Ok && finalize_ret >= 0 ==> {
                &&& r is Ok
                &&& final(self).device() is Some
                &&& final(self).device()->Some_0.drvdata == Some(data)
                &&& final(self).device()->Some_0.ops == ops_for::<T>()
                &&& final(self).device()->Some_0.registered
                &&& final(self).parent() == Some(parent)
            },
    {
        if self.parent.is_some() {
            return Err(Error::einval());
        }
        // Install only the callbacks the driver provides.
        self.ops = RtcClassOps { read_time: T::HAS_READ_TIME, set_time: T::HAS_SET_TIME };
        if let Err(e) = allocated {
            return Err(e);
        }
        let mut rtc = RtcDevice { ops: self.ops, drvdata: None, registered: false };
        rtc.drvdata = Some(data);
        if finalize_ret < 0 {
            let _finalized = rtc.drvdata.take();
            self.rtc = Some(rtc);
            return Err(Error::from_kernel_errno(finalize_ret));
        }
        rtc.registered = true;
        self.rtc = Some(rtc);
        self.parent = Some(parent);
        Ok(())
    }

    /// Whether the clock is registered.
    pub fn is_registered(&self) -> (r: bool)
        ensures
            r == self.registered(),
    {
        self.parent.is_some()
    }

    /// The host device, once allocated, for the host to call through.
    pub fn rtc_device(&self) -> (r: Option<&RtcDevice<T::Data>>)
        ensures
            r is Some <==> self.device() is Some,
            r is Some ==> *r->Some_0 == self.device()->Some_0,
    {
        self.rtc.as_ref()
    }
}

/// The read callback: borrows the driver's context from the device's slot
/// and reads the time through the driver.
pub fn read_time_callback<T: Rtc>(dev: &RtcDevice<T::Data>, time: &mut RtcTime) -> (r: i32)
    requires
        dev.drvdata is Some,
    ensures
        r == 0 || is_errno(r),
{
    let data = dev.drvdata.as_ref().unwrap();
    let ret = T::read_time(data, time);
    from_unit_result(ret)
}

/// The set callback: borrows the driver's context from the device's slot
/// and sets the time through the driver.
pub fn set_time_callback<T: Rtc>(dev: &RtcDevice<T::Data>, time: &RtcTime) -> (r: i32)
    requires
        dev.drvdata is Some,
    ensures
        r == 0 || is_errno(r),
{
    let data = dev.drvdata.as_ref().unwrap();
    let ret = T::set_time(data, time);
    from_unit_result(ret)
}

} // verus!
