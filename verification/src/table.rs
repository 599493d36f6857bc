//! Snapshot tables: the entries of one resource domain at one moment,
//! the allocation that the system made for them, and a cursor over them.

use vstd::prelude::*;
use crate::Error;
use crate::NO_ERROR;

verus! {

/// What a table is: its slots in order, the handle of the allocation that
/// holds them, and whether that allocation has been given up.
pub struct Snapshot<R> {
    pub slots: Seq<R>,
    pub handle: usize,
    pub released: bool,
}

impl<R> Snapshot<R> {
    /// A table that holds an allocation holds a handle that is not null; one
    /// that has given it up holds no slots.
    pub open spec fn wf(self) -> bool {
        &&& self.released ==> self.slots.len() == 0
        &&& !self.released ==> self.handle != 0
    }

    /// The handle that a release gives up: the table's, unless it is gone already.
    pub open spec fn release_yield(self) -> Option<usize> {
        if self.released {
            None
        } else {
            Some(self.handle)
        }
    }

    /// The table after a release: without slots, its allocation given up.
    pub open spec fn after_release(self) -> Snapshot<R> {
        Snapshot { slots: Seq::empty(), handle: self.handle, released: true }
    }

    /// How many of `n` releases in a row give up a handle.
    pub open spec fn handles_given(self, n: nat) -> nat
        decreases n,
    {
        if n == 0 {
            0
        } else {
            (if self.release_yield() is Some { 1nat } else { 0nat })
                + self.after_release().handles_given((n - 1) as nat)
        }
    }
}

/// Where an iteration stands: the slots it walks and how many it has passed.
pub struct Cursor<R> {
    pub slots: Seq<R>,
    pub offset: nat,
}

impl<R> Cursor<R> {
    /// The offset never passes the end.
    pub open spec fn wf(self) -> bool {
        self.offset <= self.slots.len()
    }

    /// The cursor at the first slot.
    pub open spec fn fresh(slots: Seq<R>) -> Cursor<R> {
        Cursor { slots, offset: 0 }
    }

    /// What the next step produces: the slot at the offset, or nothing at the end.
    pub open spec fn item(self) -> Option<R> {
        if self.offset < self.slots.len() {
            Some(self.slots[self.offset as int])
        } else {
            None
        }
    }

    /// The cursor after one step: one slot further, or unmoved at the end.
    pub open spec fn advance(self) -> Cursor<R> {
        if self.offset < self.slots.len() {
            Cursor { slots: self.slots, offset: self.offset + 1 }
        } else {
            self
        }
    }

    /// The cursor after `n` steps.
    pub open spec fn advance_by(self, n: nat) -> Cursor<R>
        decreases n,
    {
        if n == 0 {
            self
        } else {
            self.advance().advance_by((n - 1) as nat)
        }
    }

    /// The slots not yet passed.
    pub open spec fn remaining(self) -> Seq<R> {
        self.slots.skip(self.offset as int)
    }
}

/// A snapshot of all instances of one resource domain. It owns the
/// allocation that the system made for the snapshot until it is released.
pub struct Table<R> {
    entries: Vec<R>,
    handle: usize,
    released: bool,
}

impl<R> Table<R> {
    #[verifier::type_invariant]
    spec fn inv(self) -> bool {
        self@.wf()
    }

    /// The table as a value.
    pub closed spec fn view(&self) -> Snapshot<R> {
        Snapshot { slots: self.entries@, handle: self.handle, released: self.released }
    }

    /// Takes over the outcome of a query for all instances: the status that
    /// the system returned, the handle of the allocation it made and the
    /// entries found there.
    ///
    /// A status other than success is returned as the error. A success that
    /// comes with a null handle breaks the system's contract. In both cases
    /// nothing is owned.
    pub fn new(status: u32, handle: usize, entries: Vec<R>) -> (res: Result<Self, Error>)
        ensures
            status != NO_ERROR ==> res == Err::<Self, Error>(Error::OsStatus(status)),
            status == NO_ERROR && handle == 0 ==> res == Err::<Self, Error>(
                Error::InvalidInternalState,
            ),
            status == NO_ERROR && handle != 0 ==> res is Ok && res->Ok_0@ == (Snapshot {
                slots: entries@,
                handle,
                released: false,
            }),
    {
        if status != NO_ERROR {
            Err(Error::OsStatus(status))
        } else if handle == 0 {
            Err(Error::InvalidInternalState)
        } else {
            Ok(Table { entries, handle, released: false })
        }
    }

    /// The number of entries.
    pub fn len(&self) -> (n: usize)
        ensures
            n == self@.slots.len(),
    {
        self.entries.len()
    }

    /// Whether the allocation has been given up.
    pub fn is_released(&self) -> (released: bool)
        ensures
            released == self@.released,
            self@.wf(),
    {
        proof {
            use_type_invariant(self);
        }
        self.released
    }

    /// Gives up the allocation: the first call returns its handle, for the
    /// system's matching free routine, and leaves the table without entries;
    /// every later call returns nothing.
    pub fn release(&mut self) -> (res: Option<usize>)
        ensures
            res == old(self)@.release_yield(),
            final(self)@ == old(self)@.after_release(),
            res is Some ==> res->0 != 0,
    {
        proof {
            use_type_invariant(&*self);
        }
        if self.released {
            assert(self.entries@ =~= Seq::<R>::empty());
            None
        } else {
            self.entries = Vec::new();
            self.released = true;
            Some(self.handle)
        }
    }

    /// A cursor at the first entry. Any number of cursors may walk the table
    /// side by side; none outlives it.
    pub fn iter(&self) -> (it: TableIter<'_, R>)
        ensures
            it@ == Cursor::fresh(self@.slots),
            it@.wf(),
    {
        TableIter { len: self.entries.len(), offset: 0, table: self }
    }
}

/// A cursor over the entries of a table. It moves forward only and is
/// spent at the end; the table gives a new one at any time.
pub struct TableIter<'a, R> {
    len: usize,
    offset: usize,
    table: &'a Table<R>,
}

impl<'a, R> TableIter<'a, R> {
    #[verifier::type_invariant]
    spec fn inv(self) -> bool {
        &&& self.len == self.table.entries@.len()
        &&& self.offset <= self.len
    }

    /// The cursor as a value.
    pub closed spec fn view(&self) -> Cursor<R> {
        Cursor { slots: self.table.entries@, offset: self.offset as nat }
    }
}

impl<'a, R: Copy> TableIter<'a, R> {
    /// Produces a copy of the entry at the offset and moves one entry on; at
    /// the end it produces nothing and stays.
    pub fn next(&mut self) -> (res: Option<R>)
        ensures
            res == old(self)@.item(),
            final(self)@ == old(self)@.advance(),
            final(self)@.wf(),
    {
        proof {
            use_type_invariant(&*self);
        }
        if self.offset >= self.len {
            None
        } else {
            let val = self.table.entries[self.offset];
            self.offset = self.offset + 1;
            Some(val)
        }
    }

    /// Walks to the end and returns a copy of every entry passed on the way.
    pub fn collect(&mut self) -> (items: Vec<R>)
        ensures
            items@ == old(self)@.remaining(),
            final(self)@.slots == old(self)@.slots,
            final(self)@.offset == old(self)@.slots.len(),
    {
        proof {
            use_type_invariant(&*self);
        }
        let ghost start = self@;
        let mut items: Vec<R> = Vec::new();
        while self.offset < self.len
            invariant
                self.len == self.table.entries@.len(),
                self.offset <= self.len,
                self@.slots == start.slots,
                start.offset <= self@.offset,
                items@ == start.slots.subrange(start.offset as int, self@.offset as int),
            decreases self.len - self.offset,
        {
            let val = self.table.entries[self.offset];
            items.push(val);
            self.offset = self.offset + 1;
        }
        assert(items@ =~= start.remaining());
        items
    }
}

/// The `n`-th step of a fresh cursor produces the `n`-th slot, and every
/// step from the table's length on produces nothing: an iteration yields
/// exactly as many items as the table has entries, each equal to its slot.
pub proof fn lemma_iteration_yields_each_slot<R>(slots: Seq<R>, n: nat)
    ensures
        n < slots.len() ==> Cursor::fresh(slots).advance_by(n).item() == Some(slots[n as int]),
        n >= slots.len() ==> Cursor::fresh(slots).advance_by(n).item() is None,
        Cursor::fresh(slots).remaining() == slots,
{
    lemma_advance_by(Cursor::fresh(slots), n);
    assert(Cursor::fresh(slots).remaining() =~= slots);
}

/// After `n` steps a cursor stands `n` slots further, or at the end if that
/// comes first.
pub proof fn lemma_advance_by<R>(cursor: Cursor<R>, n: nat)
    requires
        cursor.wf(),
    ensures
        cursor.advance_by(n).slots == cursor.slots,
        cursor.offset + n <= cursor.slots.len() ==> cursor.advance_by(n).offset == cursor.offset + n,
        cursor.offset + n > cursor.slots.len() ==> cursor.advance_by(n).offset
            == cursor.slots.len(),
    decreases n,
{
    if n > 0 {
        lemma_advance_by(cursor.advance(), (n - 1) as nat);
    }
}

/// However many releases follow one another, a table that holds its
/// allocation gives the handle up in the first of them and in no other, and
/// a table that has given it up never does so again. A cursor only reads
/// the table, so this holds however far any iteration went.
pub proof fn lemma_released_exactly_once<R>(table: Snapshot<R>, n: nat)
    ensures
        table.handles_given(n) == (if table.released || n == 0 { 0nat } else { 1nat }),
    decreases n,
{
    if n > 0 {
        lemma_released_exactly_once(table.after_release(), (n - 1) as nat);
    }
}

} // verus!
