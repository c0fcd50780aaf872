//! Id tables: ordered (identity, optional context) entries laid out as the
//! host's flat array of raw records, each record reaching its context by a
//! byte offset from its own address.
use vstd::prelude::*;
use crate::error::{Error, EINVAL};
use crate::i2c::{DeviceId, RawDeviceId, encode_name};

verus! {

/// Bytes taken by one raw record in the table's layout.
pub const RAW_ID_SIZE: usize = 32;

/// Bytes taken by one context cell in the table's layout.
pub const INFO_SIZE: usize = 16;

/// Bytes spanned by a table of `n` entries: `n` records, the terminator and
/// `n` context cells.
pub open spec fn table_bytes(n: int) -> int {
    (n + 1) * RAW_ID_SIZE + n * INFO_SIZE
}

/// Byte address of record `i`, relative to the table's base.
pub open spec fn record_addr(i: int) -> int {
    i * RAW_ID_SIZE
}

/// Byte address of the context cell of entry `i` in a table of `n` entries,
/// relative to the table's base: the cells follow the terminator.
pub open spec fn info_addr(n: int, i: int) -> int {
    (n + 1) * RAW_ID_SIZE + i * INFO_SIZE
}

/// The offset stored in record `i` of a table of `n` entries: from the
/// record to its context cell, or zero where the entry has no context.
pub open spec fn info_offset(n: int, i: int, has_info: bool) -> int {
    if has_info {
        info_addr(n, i) - record_addr(i)
    } else {
        0
    }
}

/// An id table: the raw records the host matches on (terminator included)
/// and the context cells they point to.
pub struct IdTable<U> {
    ids: Vec<RawDeviceId>,
    infos: Vec<Option<U>>,
}

impl<U> IdTable<U> {
    /// The number of entries, terminator excluded.
    pub closed spec fn len(&self) -> nat {
        self.infos@.len()
    }

    /// Raw record `i`; record `len()` is the terminator.
    pub closed spec fn record(&self, i: int) -> RawDeviceId {
        self.ids@[i]
    }

    /// The context supplied for entry `i`.
    pub closed spec fn info(&self, i: int) -> Option<U> {
        self.infos@[i]
    }

    /// Records and context cells agree with the layout: one record per entry
    /// and a zero terminator, each offset leading to its entry's cell.
    pub closed spec fn wf(&self) -> bool {
        &&& self.ids@.len() == self.infos@.len() + 1
        &&& table_bytes(self.infos@.len() as int) <= isize::MAX
        &&& self.ids@[self.infos@.len() as int].is_zero()
        &&& forall|i: int|
            0 <= i < self.infos@.len() ==> #[trigger] self.ids@[i].driver_data == info_offset(
                self.infos@.len() as int,
                i,
                self.infos@[i] is Some,
            )
    }

    /// The table holds `entries` in their order: each record encodes its
    /// entry's identity and each cell its context, in the table's layout.
    pub open spec fn built_from(&self, entries: Seq<(DeviceId, Option<U>)>) -> bool {
        &&& self.wf()
        &&& self.len() == entries.len()
        &&& forall|i: int|
            0 <= i < entries.len() ==> (#[trigger] self.record(i)).name@ == encode_name(
                entries[i].0.name(),
            )
        &&& forall|i: int| 0 <= i < entries.len() ==> #[trigger] self.info(i) == entries[i].1
    }

    /// Builds a table from `entries`, in their order. Fails with `EINVAL`
    /// exactly when some identity does not fit a raw record.
    pub fn new(entries: Vec<(DeviceId, Option<U>)>) -> (r: Result<IdTable<U>, Error>)
        requires
            table_bytes(entries@.len() as int) <= isize::MAX,
        ensures
            r is Ok <==> forall|i: int| 0 <= i < entries@.len() ==> (#[trigger] entries@[i]).0.fits(),
            r is Err ==> r->Err_0.errno() == EINVAL,
            r is Ok ==> r->Ok_0.built_from(entries@),
    {
        let n = entries.len();
        let mut k: usize = 0;
        while k < n
            invariant
                n == entries@.len(),
                k <= n,
                forall|i: int| 0 <= i < k ==> (#[trigger] entries@[i]).0.fits(),
            decreases n - k,
        {
            if !entries[k].0.fits_record() {
                return Err(Error::einval());
            }
            k += 1;
        }
        let ghost orig = entries@;
        let mut entries = entries;
        let mut ids: Vec<RawDeviceId> = Vec::new();
        let mut infos: Vec<Option<U>> = Vec::new();
        let mut i: usize = 0;
        while i < n
            invariant
                n == orig.len(),
                table_bytes(n as int) <= isize::MAX,
                i <= n,
                entries@ == orig.subrange(i as int, n as int),
                ids@.len() == i,
                infos@.len() == i,
                forall|j: int| 0 <= j < n ==> (#[trigger] orig[j]).0.fits(),
                forall|j: int|
                    0 <= j < i ==> (#[trigger] ids@[j]).name@ == encode_name(orig[j].0.name())
                        && ids@[j].driver_data == info_offset(n as int, j, orig[j].1 is Some),
                forall|j: int| 0 <= j < i ==> #[trigger] infos@[j] == orig[j].1,
            decreases n - i,
        {
            let (id, info) = entries.remove(0);
            assert(orig[i as int].0 == id && orig[i as int].1 == info);
            let offset: isize = if info.is_some() {
                proof {
                    assert(info_addr(n as int, i as int) - record_addr(i as int) <= table_bytes(
                        n as int,
                    )) by (nonlinear_arith)
                        requires
                            i < n,
                    ;
                    assert(info_addr(n as int, i as int) - record_addr(i as int) > 0)
                        by (nonlinear_arith)
                        requires
                            i < n,
                    ;
                }
                ((n + 1 - i) * RAW_ID_SIZE + i * INFO_SIZE) as isize
            } else {
                0
            };
            assert(offset == info_offset(n as int, i as int, info is Some)) by (nonlinear_arith)
                requires
                    info is Some ==> offset == (n + 1 - i) * RAW_ID_SIZE + i * INFO_SIZE,
                    info is None ==> offset == 0,
            ;
            ids.push(id.to_rawid(offset));
            infos.push(info);
            i += 1;
        }
        ids.push(RawDeviceId::zero());
        let t = IdTable { ids, infos };
        assert(forall|i: int|
            0 <= i < n ==> (#[trigger] t.record(i)).name@ == encode_name(orig[i].0.name()));
        assert(forall|i: int| 0 <= i < n ==> #[trigger] t.info(i) == orig[i].1);
        Ok(t)
    }

    /// The number of entries, terminator excluded.
    pub fn entries(&self) -> (r: usize)
        ensures
            r == self.len(),
    {
        self.infos.len()
    }

    /// Raw record `index`, as the host reads it.
    pub fn raw_record(&self, index: usize) -> (r: &RawDeviceId)
        requires
            self.wf(),
            index <= self.len(),
        ensures
            *r == self.record(index as int),
    {
        &self.ids[index]
    }

    /// The context of the record at `index`, which the host's lookup
    /// returned: decoded from the offset the record holds, `None` where the
    /// offset is zero.
    pub fn info_at(&self, index: usize) -> (r: Option<&U>)
        requires
            self.wf(),
            index < self.len(),
        ensures
            r is Some <==> self.info(index as int) is Some,
            r is Some ==> *r->Some_0 == self.info(index as int)->Some_0,
    {
        let n = self.infos.len();
        let offset = self.ids[index].driver_data;
        assert(self.ids@[index as int].driver_data == info_offset(
            n as int,
            index as int,
            self.infos@[index as int] is Some,
        ));
        if offset == 0 {
            proof {
                if self.infos@[index as int] is Some {
                    assert(info_addr(n as int, index as int) - record_addr(index as int) > 0)
                        by (nonlinear_arith)
                        requires
                            index < n,
                    ;
                }
            }
            return None;
        }
        proof {
            assert(index * RAW_ID_SIZE + offset == (n + 1) * RAW_ID_SIZE + index * INFO_SIZE)
                by (nonlinear_arith)
                requires
                    offset == (n + 1) * RAW_ID_SIZE + index * INFO_SIZE - index * RAW_ID_SIZE,
            ;
            assert(table_bytes(n as int) <= isize::MAX);
            assert(index * RAW_ID_SIZE <= (n + 1) * RAW_ID_SIZE) by (nonlinear_arith)
                requires
                    index < n,
            ;
            assert((index * INFO_SIZE) / (INFO_SIZE as int) == index) by (nonlinear_arith);
        }
        let addr = index * RAW_ID_SIZE + offset as usize;
        let cell = (addr - (n + 1) * RAW_ID_SIZE) / INFO_SIZE;
        self.infos[cell].as_ref()
    }
}

/// Matching on the record of entry `i` of a table built from `entries`
/// returns exactly the context supplied for entry `i`, and no context where
/// that entry had none: the record may be matched on, its offset is zero
/// exactly when there is no context, and its cell holds the entry's context.
pub proof fn lemma_match_yields_entry_context<U>(
    entries: Seq<(DeviceId, Option<U>)>,
    t: IdTable<U>,
    i: int,
)
    requires
        t.built_from(entries),
        0 <= i < entries.len(),
    ensures
        t.wf(),
        i < t.len(),
        t.info(i) == entries[i].1,
        t.record(i).driver_data == 0 <==> entries[i].1 is None,
{
    let n = entries.len() as int;
    assert(t.record(i).name@ == encode_name(entries[i].0.name()));
    assert(t.ids@[i].driver_data == info_offset(n, i, t.infos@[i] is Some));
    if entries[i].1 is Some {
        assert(info_addr(n, i) - record_addr(i) > 0) by (nonlinear_arith)
            requires
                0 <= i < n,
        ;
    }
}

} // verus!
