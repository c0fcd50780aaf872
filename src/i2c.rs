//! I2C devices: identities, the per-device handle and the driver adapter.
use vstd::prelude::*;
use crate::driver::IdTable;
use crate::error::{Error, from_unit_result, is_errno, unit_ret};

verus! {

/// Bytes in the name buffer of a raw I2C id record, terminator included.
pub const I2C_NAME_SIZE: usize = 20;

/// An I2C device id.
#[derive(Debug)]
pub enum DeviceId {
    /// An I2C device name.
    Name(Vec<u8>),
}

impl DeviceId {
    /// The bytes of the identity.
    pub open spec fn name(self) -> Seq<u8> {
        match self {
            DeviceId::Name(n) => n@,
        }
    }

    /// Whether the identity, with its terminator, fits a raw record.
    pub open spec fn fits(self) -> bool {
        self.name().len() + 1 <= I2C_NAME_SIZE
    }

    /// Whether the identity fits a raw record (see [`DeviceId::fits`]).
    pub fn fits_record(&self) -> (r: bool)
        ensures
            r == self.fits(),
    {
        match self {
            DeviceId::Name(n) => n.len() < I2C_NAME_SIZE,
        }
    }

    /// Encodes the identity into a raw record whose reserved field holds
    /// `offset`.
    pub fn to_rawid(&self, offset: isize) -> (r: RawDeviceId)
        requires
            self.fits(),
        ensures
            r.name@ == encode_name(self.name()),
            r.driver_data == offset,
    {
        let DeviceId::Name(name) = self;
        let mut id = RawDeviceId::zero();
        let mut i: usize = 0;
        while i < name.len()
            invariant
                name@ == self.name(),
                name.len() < I2C_NAME_SIZE,
                i <= name.len(),
                id.name@.len() == I2C_NAME_SIZE,
                forall|j: int| 0 <= j < i ==> id.name@[j] == name@[j],
                forall|j: int| i <= j < I2C_NAME_SIZE ==> id.name@[j] == 0,
            decreases name.len() - i,
        {
            id.name[i] = name[i];
            i += 1;
        }
        id.name[i] = 0u8;
        id.driver_data = offset;
        assert(id.name@ =~= encode_name(self.name()));
        id
    }
}

/// The raw record of a name: the bytes, then zeros up to the buffer's size.
pub open spec fn encode_name(name: Seq<u8>) -> Seq<u8> {
    Seq::new(I2C_NAME_SIZE as nat, |j: int| if j < name.len() { name[j] } else { 0u8 })
}

/// The host's raw I2C id record: a zero-terminated name and one reserved
/// field, which holds the offset to the record's per-entry context.
#[derive(Clone, Copy, Debug, PartialEq, Eq)]
pub struct RawDeviceId {
    pub name: [u8; 20],
    pub driver_data: isize,
}

impl RawDeviceId {
    /// The all-zero record, which also terminates every table.
    pub fn zero() -> (r: RawDeviceId)
        ensures
            r.is_zero(),
    {
        let r = RawDeviceId { name: [0u8; 20], driver_data: 0 };
        assert(r.name@ =~= Seq::new(I2C_NAME_SIZE as nat, |j: int| 0u8));
        r
    }

    /// Whether every byte and the reserved field are zero.
    pub open spec fn is_zero(self) -> bool {
        &&& self.name@ == Seq::new(I2C_NAME_SIZE as nat, |j: int| 0u8)
        &&& self.driver_data == 0
    }
}


/// The context that the host's match `m` selects in `table`: none where
/// there is no table, no match, or no context for the matched entry.
pub open spec fn matched_info<U>(table: Option<IdTable<U>>, m: Option<usize>) -> Option<U> {
    match (table, m) {
        (Some(t), Some(i)) => t.info(i as int),
        _ => None,
    }
}

/// Whether `m` is a match the host can report for `table`: a record of the
/// table, never its terminator.
pub open spec fn valid_match<U>(table: Option<IdTable<U>>, m: Option<usize>) -> bool {
    m is Some ==> table is Some && table->Some_0.wf() && m->Some_0 < table->Some_0.len()
}

/// Represents an I2C device driver.
pub trait Driver {
    /// Data stored on the device by the driver between probe and remove.
    type Data: Send + Sync;

    /// The context of each entry of the driver's open firmware id table.
    type IdInfo;

    /// The context of each entry of the driver's I2C id table.
    type DeviceIdInfo;

    /// Device binding: called when a device that the driver matches is
    /// discovered.
    fn probe(
        client: &mut Client,
        id_info: Option<&Self::IdInfo>,
        device_id_info: Option<&Self::DeviceIdInfo>,
    ) -> Result<Self::Data, Error>;

    /// Device unbinding: called when the device is removed.
    fn remove(data: &Self::Data) -> Result<(), Error> {
        Ok(())
    }
}

/// The host's record of an I2C device, with its private-data slot.
pub struct I2cClient<D> {
    /// Address on the bus; 7-bit addresses sit in the low 7 bits.
    pub addr: u16,
    /// The private-data slot: the driver's data while the device is bound.
    pub clientdata: Option<D>,
}

impl<D> I2cClient<D> {
    /// The record after a probe that returned `probed`: the data stored on
    /// success, unchanged on failure.
    pub open spec fn bound(self, probed: Result<D, Error>) -> I2cClient<D> {
        match probed {
            Ok(d) => I2cClient { addr: self.addr, clientdata: Some(d) },
            Err(_) => self,
        }
    }

    /// The record once its data has been reclaimed.
    pub open spec fn unbound(self) -> I2cClient<D> {
        I2cClient { addr: self.addr, clientdata: None }
    }

    /// Hands the outcome of a probe to the slot: on success the data moves
    /// into it; on failure nothing is stored and the errno is returned.
    pub fn bind(&mut self, probed: Result<D, Error>) -> (r: i32)
        ensures
            *final(self) == old(self).bound(probed),
            probed is Ok ==> r == 0,
            probed is Err ==> r == probed->Err_0.errno() && is_errno(r),
    {
        match probed {
            Ok(d) => {
                self.clientdata = Some(d);
                0
            },
            Err(e) => e.to_kernel_errno(),
        }
    }

    /// Takes the driver's data back out of the slot, leaving it empty.
    pub fn reclaim(&mut self) -> (r: D)
        requires
            old(self).clientdata is Some,
        ensures
            r == old(self).clientdata->Some_0,
            *final(self) == old(self).unbound(),
    {
        self.clientdata.take().unwrap()
    }
}

/// Finalizes the data reclaimed from a device whatever `ret`, the outcome of
/// the driver's own remove, and passes that outcome on to the host.
pub fn finalize_removal<D>(data: D, ret: Result<(), Error>) -> (r: i32)
    ensures
        r == unit_ret(ret),
        ret is Err ==> is_errno(r),
{
    // The data is finalized here, whatever `ret` is.
    let _finalized = data;
    from_unit_result(ret)
}

/// An I2C device as a driver sees it during one callback.
pub struct Client {
    addr: u16,
}

impl Client {
    /// The view of the host's record `raw`.
    pub fn from_ptr<D>(raw: &I2cClient<D>) -> (r: Client)
        ensures
            r.spec_addr() == raw.addr,
    {
        Client { addr: raw.addr }
    }

    /// The address of the device on the bus.
    pub closed spec fn spec_addr(self) -> u16 {
        self.addr
    }

    /// Address used on the I2C bus connected to the parent adapter.
    ///
    /// 7-bit addresses are stored in the lower 7 bits.
    pub fn addr(&self) -> (r: u16)
        ensures
            r == self.spec_addr(),
    {
        self.addr
    }
}

/// The host's registration record of an I2C driver: its name, which
/// callbacks are installed, and which match tables it carries.
pub struct I2cDriverRecord {
    pub name: Vec<u8>,
    pub probe_new: bool,
    pub remove: bool,
    pub of_match_table: bool,
    pub id_table: bool,
}

impl I2cDriverRecord {
    /// An empty record: no name, no callback, no table.
    pub fn new() -> (r: I2cDriverRecord)
        ensures
            r.name@.len() == 0,
            !r.probe_new && !r.remove && !r.of_match_table && !r.id_table,
    {
        I2cDriverRecord {
            name: Vec::new(),
            probe_new: false,
            remove: false,
            of_match_table: false,
            id_table: false,
        }
    }
}

/// An adapter for the registration of I2C drivers: the driver's id tables
/// and the callbacks the host calls through.
pub struct DriverAdapter<T: Driver> {
    of_device_id_table: Option<IdTable<T::IdInfo>>,
    id_table: Option<IdTable<T::DeviceIdInfo>>,
}

impl<T: Driver> DriverAdapter<T> {
    /// The open firmware id table.
    pub closed spec fn of_table(&self) -> Option<IdTable<T::IdInfo>> {
        self.of_device_id_table
    }

    /// The I2C id table.
    pub closed spec fn i2c_table(&self) -> Option<IdTable<T::DeviceIdInfo>> {
        self.id_table
    }

    /// Both tables, where present, are well formed.
    pub open spec fn wf(&self) -> bool {
        &&& (self.of_table() is Some ==> self.of_table()->Some_0.wf())
        &&& (self.i2c_table() is Some ==> self.i2c_table()->Some_0.wf())
    }

    /// An adapter for a driver with the given id tables.
    pub fn new(
        of_device_id_table: Option<IdTable<T::IdInfo>>,
        id_table: Option<IdTable<T::DeviceIdInfo>>,
    ) -> (r: DriverAdapter<T>)
        requires
            of_device_id_table is Some ==> of_device_id_table->Some_0.wf(),
            id_table is Some ==> id_table->Some_0.wf(),
        ensures
            r.of_table() == of_device_id_table,
            r.i2c_table() == id_table,
            r.wf(),
    {
        DriverAdapter { of_device_id_table, id_table }
    }

    /// Fills the host's registration record: the name, both callbacks, and
    /// each table the driver has. The host's registration call follows.
    pub fn register(&self, reg: &mut I2cDriverRecord, name: &Vec<u8>)
        ensures
            final(reg).name@ == name@,
            final(reg).probe_new,
            final(reg).remove,
            final(reg).of_match_table == (self.of_table() is Some || old(reg).of_match_table),
            final(reg).id_table == (self.i2c_table() is Some || old(reg).id_table),
    {
        reg.name = name.clone();
        reg.probe_new = true;
        reg.remove = true;
        if self.of_device_id_table.is_some() {
            reg.of_match_table = true;
        }
        if self.id_table.is_some() {
            reg.id_table = true;
        }
    }

    /// The open firmware context of the device, from the record `matched`
    /// that the host's lookup returned.
    pub fn get_id_info(&self, matched: Option<usize>) -> (r: Option<&T::IdInfo>)
        requires
            valid_match(self.of_table(), matched),
        ensures
            r is Some <==> matched_info(self.of_table(), matched) is Some,
            r is Some ==> *r->Some_0 == matched_info(self.of_table(), matched)->Some_0,
    {
        match &self.of_device_id_table {
            None => None,
            Some(table) => match matched {
                None => None,
                Some(index) => table.info_at(index),
            },
        }
    }

    /// The I2C id context of the device, from the record `matched` that the
    /// host's lookup returned.
    pub fn get_device_id_info(&self, matched: Option<usize>) -> (r: Option<&T::DeviceIdInfo>)
        requires
            valid_match(self.i2c_table(), matched),
        ensures
            r is Some <==> matched_info(self.i2c_table(), matched) is Some,
            r is Some ==> *r->Some_0 == matched_info(self.i2c_table(), matched)->Some_0,
    {
        match &self.id_table {
            None => None,
            Some(table) => match matched {
                None => None,
                Some(index) => table.info_at(index),
            },
        }
    }

    /// The probe callback: looks up the contexts of the records the host
    /// matched, calls the driver's probe and, on success, moves its data into
    /// the device's slot. On failure the slot stays empty and the errno goes
    /// back to the host.
    pub fn probe_new_callback(
        &self,
        pclient: &mut I2cClient<T::Data>,
        of_match: Option<usize>,
        id_match: Option<usize>,
    ) -> (r: i32)
        requires
            old(pclient).clientdata is None,
            valid_match(self.of_table(), of_match),
            valid_match(self.i2c_table(), id_match),
        ensures
            r == 0 ==> exists|d: T::Data| *final(pclient) == old(pclient).bound(Ok(d)),
            r != 0 ==> is_errno(r) && *final(pclient) == *old(pclient),
    {
        let mut client = Client::from_ptr(pclient);
        let info = self.get_id_info(of_match);
        let device_info = self.get_device_id_info(id_match);
        let probed = T::probe(&mut client, info, device_info);
        pclient.bind(probed)
    }

    /// The remove callback: reclaims the data from the device's slot, calls
    /// the driver's remove, then finalizes the data whether or not that
    /// succeeded, and returns remove's outcome to the host.
    pub fn remove_callback(pclient: &mut I2cClient<T::Data>) -> (r: i32)
        requires
            old(pclient).clientdata is Some,
        ensures
            *final(pclient) == old(pclient).unbound(),
            r == 0 || is_errno(r),
    {
        let data = pclient.reclaim();
        let ret = T::remove(&data);
        finalize_removal(data, ret)
    }
}

/// Exactly one reclamation follows each successful probe: after a probe
/// stores `d` in an empty slot, reclaiming yields that same `d` and leaves the
/// slot empty, so no second reclamation is owed; a failed probe stores
/// nothing, so there is nothing to reclaim.
pub proof fn lemma_remove_reclaims_probed_data<D>(c: I2cClient<D>, d: D, e: Error)
    requires
        c.clientdata is None,
    ensures
        c.bound(Ok(d)).clientdata == Some(d),
        c.bound(Ok(d)).unbound() == c,
        c.bound(Ok(d)).unbound().clientdata is None,
        c.bound(Err(e)) == c,
{
}

} // verus!
