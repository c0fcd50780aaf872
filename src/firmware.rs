//! Firmware blobs: a handle that owns what the host loaded.
use vstd::prelude::*;
use vstd::slice::slice_subrange;
use crate::error::{Error, is_errno, to_result};

verus! {

/// The host's firmware record: the loaded bytes and the size it reports.
pub struct RawFirmware {
    pub size: usize,
    pub data: Vec<u8>,
}

impl RawFirmware {
    /// The reported size lies within the loaded bytes.
    pub open spec fn wf(&self) -> bool {
        self.size <= self.data@.len()
    }
}

/// Represents firmware data: owns the blob, which is released exactly once,
/// when the handle goes away.
pub struct Firmware {
    fw: RawFirmware,
}

/// The outcome of a load that returned `ret` with the record `fw`.
pub open spec fn loaded(ret: i32, fw: RawFirmware, r: Result<Firmware, Error>) -> bool {
    &&& r is Ok <==> ret >= 0
    &&& ret < 0 && is_errno(ret) ==> r->Err_0.errno() == ret
    &&& r is Ok ==> r->Ok_0.blob() == fw.data@.subrange(0, fw.size as int)
}

impl Firmware {
    #[verifier::type_invariant]
    spec fn inv(self) -> bool {
        self.fw.wf()
    }

    /// The bytes the handle exposes.
    pub closed spec fn blob(&self) -> Seq<u8> {
        self.fw.data@.subrange(0, self.fw.size as int)
    }

    /// A handle over what a successful load handed over.
    fn new(fw: RawFirmware) -> (r: Firmware)
        requires
            fw.wf(),
        ensures
            r.blob() == fw.data@.subrange(0, fw.size as int),
    {
        Firmware { fw }
    }

    /// Takes the outcome of a firmware request that may warn when the file
    /// is missing: `ret` is the host's return code and `fw` what it loaded.
    /// A failure yields no handle and `fw` is released.
    pub fn request(ret: i32, fw: RawFirmware) -> (r: Result<Firmware, Error>)
        requires
            ret >= 0 ==> fw.wf(),
        ensures
            loaded(ret, fw, r),
    {
        Self::from_load(ret, fw)
    }

    /// Takes the outcome of a request for optional firmware, which stays
    /// silent when the file is not found.
    pub fn request_nowarn(ret: i32, fw: RawFirmware) -> (r: Result<Firmware, Error>)
        requires
            ret >= 0 ==> fw.wf(),
        ensures
            loaded(ret, fw, r),
    {
        Self::from_load(ret, fw)
    }

    /// Takes the outcome of a direct load, which never falls back to a user
    /// mode helper.
    pub fn request_direct(ret: i32, fw: RawFirmware) -> (r: Result<Firmware, Error>)
        requires
            ret >= 0 ==> fw.wf(),
        ensures
            loaded(ret, fw, r),
    {
        Self::from_load(ret, fw)
    }

    fn from_load(ret: i32, fw: RawFirmware) -> (r: Result<Firmware, Error>)
        requires
            ret >= 0 ==> fw.wf(),
        ensures
            loaded(ret, fw, r),
    {
        match to_result(ret) {
            Err(e) => Err(e),
            Ok(()) => Ok(Self::new(fw)),
        }
    }

    /// The firmware data: exactly the size the host reported.
    pub fn data(&self) -> (r: &[u8])
        ensures
            r@ == self.blob(),
    {
        proof {
            use_type_invariant(self);
        }
        slice_subrange(self.fw.data.as_slice(), 0, self.fw.size)
    }

    /// The number of bytes loaded, as the host reported it.
    pub fn size(&self) -> (r: usize)
        ensures
            r == self.blob().len(),
    {
        proof {
            use_type_invariant(self);
        }
        self.fw.size
    }
}

} // verus!
