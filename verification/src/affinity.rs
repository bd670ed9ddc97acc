//! The CPU affinity of a queue: which CPUs the worker of the queue should run on.
use vstd::prelude::*;
use bitmaps::Bitmap;

verus! {

/// Number of CPUs that an affinity can name.
pub const UBLK_AFFINITY_CPUS: usize = 1024;

/// A set of CPUs, one bit for each of `UBLK_AFFINITY_CPUS` CPUs, held in a
/// bitmap of the bitmaps crate. The driver fills the bitmap through its address.
#[verifier::external_body]
pub struct UblkQueueAffinity {
    affinity: Bitmap<1024>,
}

/// The CPUs that an affinity names, by rising number.
pub uninterp spec fn affinity_cpus(a: UblkQueueAffinity) -> Seq<usize>;

/// Whether the numbers rise strictly and stay below `UBLK_AFFINITY_CPUS`.
pub open spec fn spec_rising_cpus(cpus: Seq<usize>) -> bool {
    &&& forall|i: int| 0 <= i < cpus.len() ==> #[trigger] cpus[i] < UBLK_AFFINITY_CPUS
    &&& forall|i: int, j: int| 0 <= i < j < cpus.len() ==> cpus[i] < cpus[j]
}

impl UblkQueueAffinity {
    /// An affinity that names no CPU: `Bitmap::new` of bitmaps, every bit false.
    #[verifier::external_body]
    pub fn new() -> (a: UblkQueueAffinity)
        ensures
            affinity_cpus(a) == Seq::<usize>::empty(),
    {
        UblkQueueAffinity { affinity: Bitmap::new() }
    }

    /// Length in bytes of the bitmap.
    pub fn buf_len(&self) -> (len: usize)
        ensures
            len == UBLK_AFFINITY_CPUS / 8,
    {
        1024 / 8
    }

    /// Address of the bytes of the bitmap, `Bitmap::as_bytes` of bitmaps, for
    /// the driver to fill. Nothing is said of the address.
    #[verifier::external_body]
    pub fn addr(&self) -> (addr: u64) {
        self.affinity.as_bytes().as_ptr() as u64
    }

    /// `Bitmap::set` of bitmaps: it sets the bit of CPU `cpu` to `value`
    /// and leaves the other bits. It panics on an index out of the bitmap.
    #[verifier::external_body]
    fn set(&mut self, cpu: usize, value: bool)
        requires
            cpu < UBLK_AFFINITY_CPUS,
        ensures
            spec_rising_cpus(affinity_cpus(*final(self))),
            affinity_cpus(*final(self)).to_set() == if value {
                affinity_cpus(*old(self)).to_set().insert(cpu)
            } else {
                affinity_cpus(*old(self)).to_set().remove(cpu)
            },
    {
        self.affinity.set(cpu, value);
    }

    /// The affinity with CPU `cpu` added. A `cpu` out of range adds nothing.
    pub fn with_cpu(self, cpu: usize) -> (a: UblkQueueAffinity)
        ensures
            spec_rising_cpus(affinity_cpus(self)) ==> spec_rising_cpus(affinity_cpus(a)),
            cpu < UBLK_AFFINITY_CPUS ==> spec_rising_cpus(affinity_cpus(a)),
            cpu < UBLK_AFFINITY_CPUS ==> affinity_cpus(a).to_set() == affinity_cpus(
                self,
            ).to_set().insert(cpu),
            cpu >= UBLK_AFFINITY_CPUS ==> affinity_cpus(a) == affinity_cpus(self),
    {
        let mut a = self;
        if cpu < UBLK_AFFINITY_CPUS {
            a.set(cpu, true);
        }
        a
    }

    /// The CPUs that the affinity names, by rising number: what iterating
    /// over a bitmap of bitmaps gives, the indices of its true bits from the
    /// first to the last.
    #[verifier::external_body]
    pub fn to_bits_vec(&self) -> (cpus: Vec<usize>)
        ensures
            cpus@ == affinity_cpus(*self),
            spec_rising_cpus(cpus@),
    {
        self.affinity.into_iter().collect()
    }
}

impl Default for UblkQueueAffinity {
    fn default() -> (a: UblkQueueAffinity)
        ensures
            affinity_cpus(a) == Seq::<usize>::empty(),
    {
        UblkQueueAffinity::new()
    }
}

} // verus!
