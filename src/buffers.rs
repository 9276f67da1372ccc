use vstd::prelude::*;
use vstd::arithmetic::div_mod::{lemma_add_mod_noop_right, lemma_mod_self_0, lemma_small_mod};
use vstd::slice::slice_subrange;

verus! {

/// Failure status of a call into the device, as the operating system reported it.
#[derive(Clone, Copy, Debug, PartialEq, Eq, Structural)]
pub struct DeviceError {
    pub code: i32,
}

/// What can go wrong while managing the buffer pool.
#[derive(Clone, Copy, Debug, PartialEq, Eq, Structural)]
pub enum BufferError {
    /// A call into the device failed.
    Device(DeviceError),
    /// The pool holds no region yet.
    NoBuffersAllocated,
    /// A completion names memory that no region of the pool owns.
    BufferNotFound,
}

/// Capture time of a completed buffer.
#[derive(Clone, Copy, Debug, PartialEq, Eq, Structural)]
pub struct Timestamp {
    pub sec: i64,
    pub usec: i64,
}

/// What the device reports when it has filled a region.
#[derive(Clone, Copy, Debug, PartialEq, Eq, Structural)]
pub struct CompletionRecord {
    /// Base address of the filled memory, as it was registered at submission.
    pub address: u64,
    /// Number of bytes the capture wrote.
    pub bytes_used: u32,
    pub sequence: u32,
    pub timestamp: Timestamp,
    pub flags: u32,
}

/// Metadata of a completed capture.
#[derive(Clone, Copy, Debug, PartialEq, Eq, Structural)]
pub struct Metadata {
    pub sequence: u32,
    pub timestamp: Timestamp,
    pub flags: u32,
}

/// One region to hand to the device: its index in the pool and its full length.
#[derive(Clone, Copy, Debug, PartialEq, Eq, Structural)]
pub struct Submission {
    pub index: usize,
    pub length: usize,
}

/// A read-only view over the bytes a completed capture wrote into a region.
pub struct UserBuffer<'a> {
    pub index: usize,
    pub data: &'a [u8],
    pub meta: Metadata,
}

/// First index in `from..end` whose registered base address is `address`.
pub open spec fn first_owner(bases: Seq<u64>, address: u64, from: int, end: int) -> Option<int>
    decreases end - from,
{
    if from >= end {
        None
    } else if bases[from] == address {
        Some(from)
    } else {
        first_owner(bases, address, from + 1, end)
    }
}

/// The region that owns a completion: the first one whose base address the completion names,
/// among the regions that have a registered base.
pub open spec fn owner_of(bases: Seq<u64>, count: nat, address: u64) -> Option<int> {
    let end = if bases.len() < count { bases.len() as int } else { count as int };
    first_owner(bases, address, 0, end)
}

/// Where no earlier region was registered under the same address, a completion naming the
/// address of region `j` belongs to region `j`.
pub proof fn lemma_owner_is_registered_region(bases: Seq<u64>, count: nat, j: int)
    requires
        0 <= j < bases.len(),
        j < count,
        forall|i: int| 0 <= i < j ==> #[trigger] bases[i] != bases[j],
    ensures
        owner_of(bases, count, bases[j]) == Some(j),
{
    let end = if bases.len() < count { bases.len() as int } else { count as int };
    lemma_first_owner_finds(bases, bases[j], 0, end, j);
}

proof fn lemma_first_owner_finds(bases: Seq<u64>, address: u64, from: int, end: int, j: int)
    requires
        0 <= from <= j < end,
        end <= bases.len(),
        bases[j] == address,
        forall|i: int| from <= i < j ==> #[trigger] bases[i] != address,
    ensures
        first_owner(bases, address, from, end) == Some(j),
    decreases j - from,
{
    if from < j {
        lemma_first_owner_finds(bases, address, from + 1, end, j);
    }
}

/// The cursor after one successful submission from cursor `c` in a pool of `n` regions.
pub open spec fn next_cursor(c: nat, n: nat) -> nat {
    (c + 1) % n
}

/// The cursor after `k` successful submissions from cursor `c` in a pool of `n` regions.
pub open spec fn cursor_after(c: nat, n: nat, k: nat) -> nat
    decreases k,
{
    if k == 0 {
        c
    } else {
        next_cursor(cursor_after(c, n, (k - 1) as nat), n)
    }
}

/// After `k` successful submissions the cursor has moved `k` places, modulo the pool size.
pub proof fn lemma_cursor_after(c: nat, n: nat, k: nat)
    requires
        n > 0,
        c < n,
    ensures
        cursor_after(c, n, k) == (c + k) % n,
    decreases k,
{
    if k == 0 {
        lemma_small_mod(c, n);
    } else {
        lemma_cursor_after(c, n, (k - 1) as nat);
        lemma_add_mod_noop_right(1, c + k - 1, n as int);
    }
}

/// Rotation law: whatever the starting cursor, as many successful submissions as the pool
/// has regions bring the cursor back where it started.
pub proof fn lemma_rotation_returns(c: nat, n: nat)
    requires
        n > 0,
        c < n,
    ensures
        cursor_after(c, n, n) == c,
{
    lemma_cursor_after(c, n, n);
    assert((c + n) % n == c) by {
        lemma_add_mod_noop_right(c as int, n as int, n as int);
        lemma_mod_self_0(n as int);
        lemma_small_mod(c, n);
    }
}

/// A pool of user-allocated capture regions, handed to the device in rotation.
pub struct UserBufferManager {
    fd: i32,
    bufs: Vec<Vec<u8>>,
    buf_index: usize,
    image_size: usize,
}

impl UserBufferManager {
    /// The contents of the regions, in pool order.
    pub closed spec fn regions(&self) -> Seq<Seq<u8>> {
        self.bufs@.map_values(|b: Vec<u8>| b@)
    }

    /// Index of the region that the next submission hands to the device.
    pub closed spec fn cursor(&self) -> nat {
        self.buf_index as nat
    }

    /// Length of every region: the image size at the last allocation.
    pub closed spec fn region_len(&self) -> nat {
        self.image_size as nat
    }

    pub closed spec fn device(&self) -> i32 {
        self.fd
    }

    pub closed spec fn wf(&self) -> bool {
        &&& (self.bufs.len() == 0 ==> self.buf_index == 0)
        &&& (self.bufs.len() > 0 ==> self.buf_index < self.bufs.len())
        &&& forall|i: int| 0 <= i < self.bufs.len() ==> #[trigger] self.bufs@[i].len() == self.image_size
    }

    /// What a well-formed pool guarantees: every region is `region_len()` bytes long, and the
    /// cursor of a non-empty pool names one of its regions.
    pub proof fn lemma_wf(&self)
        requires
            self.wf(),
        ensures
            forall|i: int| 0 <= i < self.regions().len() ==> #[trigger] self.regions()[i].len() == self.region_len(),
            self.regions().len() == 0 ==> self.cursor() == 0,
            self.regions().len() > 0 ==> self.cursor() < self.regions().len(),
    {
        assert forall|i: int| 0 <= i < self.regions().len() implies #[trigger] self.regions()[i].len() == self.region_len() by {
            assert(self.bufs@[i].len() == self.image_size);
        }
    }

    /// An empty pool for the device behind `fd`.
    pub fn new(fd: i32) -> (r: UserBufferManager)
        ensures
            r.wf(),
            r.regions().len() == 0,
            r.cursor() == 0,
            r.device() == fd,
    {
        UserBufferManager { fd, bufs: Vec::new(), buf_index: 0, image_size: 0 }
    }

    /// File descriptor of the device.
    pub fn fd(&self) -> (r: i32)
        ensures
            r == self.device(),
    {
        self.fd
    }

    /// Number of regions in the pool.
    pub fn len(&self) -> (r: usize)
        requires
            self.wf(),
        ensures
            r == self.regions().len(),
    {
        self.bufs.len()
    }

    /// Whether the pool holds no region.
    pub fn is_empty(&self) -> (r: bool)
        requires
            self.wf(),
        ensures
            r == (self.regions().len() == 0),
    {
        self.bufs.len() == 0
    }

    /// Position of the rotation cursor.
    pub fn buf_index(&self) -> (r: usize)
        ensures
            r == self.cursor(),
    {
        self.buf_index
    }

    /// The whole region at `index`.
    pub fn region(&self, index: usize) -> (r: &[u8])
        requires
            self.wf(),
            index < self.regions().len(),
        ensures
            r@ == self.regions()[index as int],
    {
        self.bufs[index].as_slice()
    }

    /// Sizes the pool after the device granted `granted` slots for images of `image_size`
    /// bytes: exactly `granted` zero-filled regions of `image_size` bytes each, the cursor
    /// on the first. Every region must then be submitted to the device; allocating zero
    /// regions takes a failed priming back. Returns the number of regions.
    pub fn allocate(&mut self, image_size: u32, granted: u32) -> (r: u32)
        requires
            old(self).wf(),
        ensures
            final(self).wf(),
            r == granted,
            final(self).regions().len() == granted,
            final(self).region_len() == image_size,
            forall|i: int| 0 <= i < granted ==> #[trigger] final(self).regions()[i] == Seq::new(
                image_size as nat,
                |j: int| 0u8,
            ),
            final(self).cursor() == 0,
            final(self).device() == old(self).device(),
    {
        let size: usize = image_size as usize;
        let count: usize = granted as usize;
        let mut bufs: Vec<Vec<u8>> = Vec::new();
        let mut i: usize = 0;
        while i < count
            invariant
                i <= count,
                bufs.len() == i,
                forall|k: int| 0 <= k < i ==> (#[trigger] bufs@[k])@ == Seq::new(
                    size as nat,
                    |j: int| 0u8,
                ),
            decreases count - i,
        {
            let mut region: Vec<u8> = Vec::with_capacity(size);
            let mut j: usize = 0;
            while j < size
                invariant
                    j <= size,
                    region@ == Seq::new(j as nat, |x: int| 0u8),
                decreases size - j,
            {
                region.push(0u8);
                j = j + 1;
                assert(region@ =~= Seq::new(j as nat, |x: int| 0u8));
            }
            bufs.push(region);
            i = i + 1;
        }
        self.bufs = bufs;
        self.buf_index = 0;
        self.image_size = size;
        assert forall|k: int| 0 <= k < granted implies #[trigger] self.regions()[k] == Seq::new(
            image_size as nat,
            |j: int| 0u8,
        ) by {
            assert(self.bufs@[k]@ == Seq::new(size as nat, |j: int| 0u8));
        }
        granted
    }

    /// Tears the pool down. The regions are freed when the manager is dropped, so
    /// nothing is done here and nothing fails.
    pub fn release(&mut self) -> (r: Result<(), BufferError>)
        ensures
            r is Ok,
            *final(self) == *old(self),
    {
        Ok(())
    }

    /// The region that the next call of `queue` hands to the device.
    pub fn next_submission(&self) -> (r: Result<Submission, BufferError>)
        requires
            self.wf(),
        ensures
            self.regions().len() == 0 <==> r == Err::<Submission, BufferError>(
                BufferError::NoBuffersAllocated,
            ),
            self.regions().len() > 0 ==> r == Ok::<Submission, BufferError>(
                (Submission { index: self.cursor() as usize, length: self.region_len() as usize }),
            ),
            r is Ok ==> r->Ok_0.index == self.cursor() && r->Ok_0.length == self.regions()[r->Ok_0.index as int].len(),
    {
        if self.bufs.len() == 0 {
            return Err(BufferError::NoBuffersAllocated);
        }
        Ok(Submission { index: self.buf_index, length: self.bufs[self.buf_index].len() })
    }

    /// Records the device's answer to the submission of the region under the cursor:
    /// on success the cursor moves on to the next region, wrapping to the first.
    pub fn queue(&mut self, submitted: Result<(), DeviceError>) -> (r: Result<(), BufferError>)
        requires
            old(self).wf(),
        ensures
            final(self).wf(),
            final(self).regions() == old(self).regions(),
            final(self).region_len() == old(self).region_len(),
            final(self).device() == old(self).device(),
            old(self).regions().len() == 0 ==> r == Err::<(), BufferError>(BufferError::NoBuffersAllocated)
                && final(self).cursor() == old(self).cursor(),
            old(self).regions().len() > 0 && submitted is Err ==> r == Err::<(), BufferError>(
                BufferError::Device(submitted->Err_0),
            ) && final(self).cursor() == old(self).cursor(),
            old(self).regions().len() > 0 && submitted is Ok ==> r is Ok && final(self).cursor() == next_cursor(
                old(self).cursor(),
                old(self).regions().len(),
            ),
    {
        if self.bufs.len() == 0 {
            return Err(BufferError::NoBuffersAllocated);
        }
        match submitted {
            Err(e) => Err(BufferError::Device(e)),
            Ok(()) => {
                let n: usize = self.bufs.len();
                self.buf_index = self.buf_index + 1;
                if self.buf_index == n {
                    self.buf_index = 0;
                }
                proof {
                    let next: int = old(self).buf_index + 1;
                    if next < n {
                        lemma_small_mod(next as nat, n as nat);
                    } else {
                        lemma_mod_self_0(n as int);
                    }
                }
                Ok(())
            },
        }
    }

    /// Matches a completion from the device to the region that owns it, `bases` giving the
    /// address each region was registered under. The view covers the bytes the capture used.
    pub fn dequeue(
        &self,
        completed: Result<CompletionRecord, DeviceError>,
        bases: &[u64],
    ) -> (r: Result<UserBuffer<'_>, BufferError>)
        requires
            self.wf(),
        ensures
            self.regions().len() == 0 ==> r matches Err(BufferError::NoBuffersAllocated),
            self.regions().len() > 0 && completed is Err ==> (r matches Err(
                BufferError::Device(e),
            ) && e == completed->Err_0),
            self.regions().len() > 0 && completed is Ok ==> {
                let rec = completed->Ok_0;
                let owner = owner_of(bases@, self.regions().len(), rec.address);
                match owner {
                    None => r matches Err(BufferError::BufferNotFound),
                    Some(k) => if rec.bytes_used > self.regions()[k].len() {
                        r matches Err(BufferError::BufferNotFound)
                    } else {
                        &&& r is Ok
                        &&& r->Ok_0.index == k
                        &&& r->Ok_0.data@ == self.regions()[k].subrange(0, rec.bytes_used as int)
                        &&& r->Ok_0.meta == (Metadata {
                            sequence: rec.sequence,
                            timestamp: rec.timestamp,
                            flags: rec.flags,
                        })
                    },
                }
            },
            r is Ok ==> completed is Ok && r->Ok_0.data@.len() == completed->Ok_0.bytes_used
                && r->Ok_0.index < self.regions().len() && r->Ok_0.data@.len() <= self.regions()[r->Ok_0.index as int].len()
                && r->Ok_0.data@.len() <= self.region_len(),
    {
        if self.bufs.len() == 0 {
            return Err(BufferError::NoBuffersAllocated);
        }
        let rec = match completed {
            Err(e) => {
                return Err(BufferError::Device(e));
            },
            Ok(rec) => rec,
        };
        let end: usize = if bases.len() < self.bufs.len() {
            bases.len()
        } else {
            self.bufs.len()
        };
        let mut index: Option<usize> = None;
        let mut i: usize = 0;
        while i < end
            invariant_except_break
                index is None,
            invariant
                i <= end,
                end <= bases@.len(),
                end <= self.bufs.len(),
                first_owner(bases@, rec.address, 0, end as int) == first_owner(
                    bases@,
                    rec.address,
                    i as int,
                    end as int,
                ),
            ensures
                index is None ==> first_owner(bases@, rec.address, 0, end as int) is None,
                index is Some ==> first_owner(bases@, rec.address, 0, end as int) == Some(
                    index->Some_0 as int,
                ) && index->Some_0 < end,
            decreases end - i,
        {
            if bases[i] == rec.address {
                index = Some(i);
                break;
            }
            i = i + 1;
        }
        match index {
            None => Err(BufferError::BufferNotFound),
            Some(k) => {
                let region: &[u8] = self.bufs[k].as_slice();
                let used: usize = rec.bytes_used as usize;
                if used > region.len() {
                    return Err(BufferError::BufferNotFound);
                }
                assert(self.bufs@[k as int].len() == self.image_size);
                let data = slice_subrange(region, 0, used);
                Ok(
                    UserBuffer {
                        index: k,
                        data,
                        meta: Metadata {
                            sequence: rec.sequence,
                            timestamp: rec.timestamp,
                            flags: rec.flags,
                        },
                    },
                )
            },
        }
    }
}

} // verus!
