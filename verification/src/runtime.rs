//! Model of the embedding runtime's string heap.
//!
//! The runtime owns every string cell: a length-prefixed byte buffer (the
//! bytes may contain zero bytes), a reference count, an allocation lifetime
//! class (request-scoped or persistent) and an interned flag.  Native code
//! addresses a cell through an opaque non-zero handle; the handle `0` plays
//! the role of the null pointer.

use vstd::prelude::*;

verus! {

/// Mathematical model of one string cell of the runtime.
pub struct StrCellModel {
    pub bytes: Seq<u8>,
    pub refcount: nat,
    pub persistent: bool,
    pub interned: bool,
}

/// One string cell of the runtime: the byte contents (length-prefixed, so a
/// zero byte is ordinary data), the reference count, and its lifetime class.
struct StrCell {
    bytes: Vec<u8>,
    refcount: u64,
    persistent: bool,
    interned: bool,
}

impl View for StrCell {
    type V = StrCellModel;

    closed spec fn view(&self) -> StrCellModel {
        StrCellModel {
            bytes: self.bytes@,
            refcount: self.refcount as nat,
            persistent: self.persistent,
            interned: self.interned,
        }
    }
}

/// The runtime's string heap.  A handle `h` addresses the cell at position
/// `h - 1`; a freed cell leaves a `None` hole so that handles stay stable.
pub struct Runtime {
    cells: Vec<Option<StrCell>>,
}

/// True when `h` addresses a live cell of the heap `rt`.
pub open spec fn valid_handle(rt: Seq<Option<StrCellModel>>, h: usize) -> bool {
    1 <= h <= rt.len() && rt[h - 1] is Some
}

/// The cell addressed by `h` in the heap `rt`.
pub open spec fn cell_at(rt: Seq<Option<StrCellModel>>, h: usize) -> StrCellModel
    recommends
        valid_handle(rt, h),
{
    rt[h - 1]->Some_0
}

/// The heap after one reference-count decrement on the cell at `h`: the count
/// drops by one, and a cell whose count reaches zero is freed.
pub open spec fn release_model(
    rt: Seq<Option<StrCellModel>>,
    h: usize,
) -> Seq<Option<StrCellModel>>
    recommends
        valid_handle(rt, h),
{
    if cell_at(rt, h).refcount <= 1 {
        rt.update(h - 1, None)
    } else {
        rt.update(
            h - 1,
            Some(
                StrCellModel {
                    refcount: (cell_at(rt, h).refcount - 1) as nat,
                    ..cell_at(rt, h)
                },
            ),
        )
    }
}

/// True when position `i` of the heap holds a live interned cell with exactly
/// the byte contents `bytes`.
pub open spec fn interned_match(
    rt: Seq<Option<StrCellModel>>,
    i: int,
    bytes: Seq<u8>,
) -> bool {
    0 <= i < rt.len() && rt[i] is Some && rt[i]->Some_0.interned && rt[i]->Some_0.persistent
        && rt[i]->Some_0.bytes == bytes
}

/// True when the interning table already holds a cell with contents `bytes`.
pub open spec fn has_interned(rt: Seq<Option<StrCellModel>>, bytes: Seq<u8>) -> bool {
    exists|i: int| interned_match(rt, i, bytes)
}

/// What registering `bytes` in the interning table does: when an interned
/// cell with equal contents exists, the heap is unchanged and the handle is
/// the first such cell's; otherwise one fresh interned, persistent cell is
/// appended and its handle returned.
pub open spec fn intern_post(
    rt_old: Seq<Option<StrCellModel>>,
    bytes: Seq<u8>,
    h: usize,
    rt_new: Seq<Option<StrCellModel>>,
) -> bool {
    if has_interned(rt_old, bytes) {
        &&& rt_new == rt_old
        &&& interned_match(rt_old, h - 1, bytes)
        &&& forall|j: int| 0 <= j < h - 1 ==> !interned_match(rt_old, j, bytes)
    } else {
        &&& rt_new == rt_old.push(
            Some(StrCellModel { bytes: bytes, refcount: 1, persistent: true, interned: true }),
        )
        &&& h == rt_old.len() + 1
    }
}

impl View for Runtime {
    type V = Seq<Option<StrCellModel>>;

    closed spec fn view(&self) -> Seq<Option<StrCellModel>> {
        self.cells@.map_values(
            |c: Option<StrCell>|
                match c {
                    Some(cell) => Some(cell@),
                    None => None,
                },
        )
    }
}

impl Runtime {
    /// A runtime with an empty string heap.
    pub fn new() -> (rt: Runtime)
        ensures
            rt@ =~= Seq::<Option<StrCellModel>>::empty(),
    {
        Runtime { cells: Vec::new() }
    }

    /// Allocates a fresh string cell holding a copy of `bytes`, with the
    /// requested lifetime class and a reference count of one.  Allocation
    /// never fails (an allocation failure inside the runtime is fatal by the
    /// runtime's own convention).  Returns the new cell's handle.
    pub fn string_init(&mut self, bytes: Vec<u8>, persistent: bool) -> (h: usize)
        requires
            old(self)@.len() < usize::MAX,
        ensures
            final(self)@ =~= old(self)@.push(
                Some(
                    StrCellModel {
                        bytes: bytes@,
                        refcount: 1,
                        persistent: persistent,
                        interned: false,
                    },
                ),
            ),
            h == old(self)@.len() + 1,
            valid_handle(final(self)@, h),
    {
        self.cells.push(
            Some(StrCell { bytes, refcount: 1, persistent: persistent, interned: false }),
        );
        self.cells.len()
    }

    /// Registers `bytes` in the runtime's interning table: when an interned
    /// cell with equal contents already exists, its handle is returned and the
    /// heap is unchanged, so equal content maps to one shared allocation;
    /// otherwise a fresh interned cell is allocated.  Interned strings are
    /// always persistent.
    pub fn string_init_interned(&mut self, bytes: Vec<u8>) -> (h: usize)
        requires
            old(self)@.len() < usize::MAX,
        ensures
            valid_handle(final(self)@, h),
            cell_at(final(self)@, h).interned,
            cell_at(final(self)@, h).persistent,
            cell_at(final(self)@, h).bytes == bytes@,
            intern_post(old(self)@, bytes@, h, final(self)@),
    {
        let mut i: usize = 0;
        while i < self.cells.len()
            invariant
                i <= self.cells.len(),
                forall|j: int| 0 <= j < i ==> !interned_match(self@, j, bytes@),
            decreases self.cells.len() - i,
        {
            match &self.cells[i] {
                Some(cell) => {
                    if cell.interned && cell.persistent && bytes_eq(&cell.bytes, &bytes) {
                        proof {
                            assert(interned_match(self@, i as int, bytes@));
                        }
                        return i + 1;
                    }
                },
                None => {},
            }
            i = i + 1;
        }
        proof {
            assert(!has_interned(self@, bytes@));
        }
        let ghost bs = bytes@;
        let ghost before = self@;
        self.cells.push(
            Some(StrCell { bytes, refcount: 1, persistent: true, interned: true }),
        );
        proof {
            assert(self@ =~= before.push(
                Some(StrCellModel { bytes: bs, refcount: 1, persistent: true, interned: true }),
            ));
        }
        self.cells.len()
    }

    /// Decrements the reference count of the cell at `h`, freeing the cell
    /// when the count reaches zero.  The handle must be live: releasing a
    /// freed or null handle is the double-release this layer must rule out.
    pub fn string_release(&mut self, h: usize)
        requires
            valid_handle(old(self)@, h),
        ensures
            final(self)@ =~= release_model(old(self)@, h),
    {
        let slot = &self.cells[h - 1];
        match slot {
            Some(cell) => {
                if cell.refcount <= 1 {
                    self.cells.set(h - 1, None);
                } else {
                    let old_cell = self.cells.remove(h - 1);
                    match old_cell {
                        Some(c) => {
                            let replaced = StrCell {
                                bytes: c.bytes,
                                refcount: c.refcount - 1,
                                persistent: c.persistent,
                                interned: c.interned,
                            };
                            self.cells.insert(h - 1, Some(replaced));
                        },
                        None => {},
                    }
                }
            },
            None => {},
        }
    }

    /// True when `h` addresses a live cell.
    pub fn handle_is_valid(&self, h: usize) -> (r: bool)
        ensures
            r == valid_handle(self@, h),
    {
        1 <= h && h <= self.cells.len() && self.cells[h - 1].is_some()
    }

    /// The byte contents of the cell at `h`, or `None` for a null or stale
    /// handle.
    pub fn string_bytes(&self, h: usize) -> (r: Option<Vec<u8>>)
        ensures
            match r {
                Some(bytes) => valid_handle(self@, h) && bytes@ == cell_at(self@, h).bytes,
                None => !valid_handle(self@, h),
            },
    {
        if 1 <= h && h <= self.cells.len() {
            match &self.cells[h - 1] {
                Some(cell) => Some(clone_bytes(&cell.bytes)),
                None => None,
            }
        } else {
            None
        }
    }

    /// The reference count of the cell at `h`, or `None` for a null or stale
    /// handle.
    pub fn string_refcount(&self, h: usize) -> (r: Option<u64>)
        ensures
            match r {
                Some(rc) => valid_handle(self@, h) && rc as nat == cell_at(self@, h).refcount,
                None => !valid_handle(self@, h),
            },
    {
        if 1 <= h && h <= self.cells.len() {
            match &self.cells[h - 1] {
                Some(cell) => Some(cell.refcount),
                None => None,
            }
        } else {
            None
        }
    }
}

/// Compares two byte buffers for equal contents.
fn bytes_eq(a: &Vec<u8>, b: &Vec<u8>) -> (r: bool)
    ensures
        r == (a@ == b@),
{
    if a.len() != b.len() {
        proof {
            assert(a@.len() != b@.len());
        }
        return false;
    }
    let mut i: usize = 0;
    while i < a.len()
        invariant
            i <= a.len(),
            a@.len() == b@.len(),
            forall|j: int| 0 <= j < i ==> a@[j] == b@[j],
        decreases a.len() - i,
    {
        if a[i] != b[i] {
            return false;
        }
        i = i + 1;
    }
    proof {
        assert(a@ =~= b@);
    }
    true
}

/// Copies a byte buffer.
fn clone_bytes(bytes: &Vec<u8>) -> (r: Vec<u8>)
    ensures
        r@ == bytes@,
{
    let mut out: Vec<u8> = Vec::new();
    let mut i: usize = 0;
    while i < bytes.len()
        invariant
            i <= bytes.len(),
            out@ =~= bytes@.take(i as int),
        decreases bytes.len() - i,
    {
        out.push(bytes[i]);
        i = i + 1;
    }
    proof {
        assert(out@ =~= bytes@);
    }
    out
}

} // verus!
