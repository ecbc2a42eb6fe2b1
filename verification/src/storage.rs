use vstd::prelude::*;

verus! {

/// What a storage cell says about its allocation.
pub enum Mode {
    /// The allocation is never counted and never released.
    ReadOnly,
    /// The number of live handles on the allocation, at least one.
    Counted(nat),
}

impl Mode {
    /// A count is never zero: an allocation without handles is released.
    pub open spec fn valid(self) -> bool {
        match self {
            Mode::ReadOnly => true,
            Mode::Counted(n) => n >= 1,
        }
    }

    /// Sole ownership: a counted cell with exactly one handle.
    pub open spec fn is_unique(self) -> bool {
        self == Mode::Counted(1)
    }

    /// The mode after one more handle came to life.
    pub open spec fn incremented(self) -> Mode {
        match self {
            Mode::ReadOnly => Mode::ReadOnly,
            Mode::Counted(n) => Mode::Counted(n + 1),
        }
    }

    /// Whether giving up one handle releases the allocation.
    pub open spec fn releases(self) -> bool {
        self.is_unique()
    }

    /// The mode after one handle was given up and the allocation stayed.
    pub open spec fn decreased(self) -> Mode {
        match self {
            Mode::ReadOnly => Mode::ReadOnly,
            Mode::Counted(n) => if n > 1 {
                Mode::Counted((n - 1) as nat)
            } else {
                Mode::Counted(n)
            },
        }
    }

    /// Whether one more handle can be counted in a machine word.
    pub open spec fn can_increment(self) -> bool {
        match self {
            Mode::ReadOnly => true,
            Mode::Counted(n) => n < usize::MAX,
        }
    }
}

/// The header of an allocation: one machine word, zero for a read-only
/// allocation and the number of live handles otherwise.
#[derive(Clone, Copy, Debug, PartialEq, Eq, Structural)]
pub struct Storage {
    pub word: usize,
}

impl View for Storage {
    type V = Mode;

    open spec fn view(&self) -> Mode {
        if self.word == 0 {
            Mode::ReadOnly
        } else {
            Mode::Counted(self.word as nat)
        }
    }
}

impl Storage {
    /// A cell for a fresh allocation with a single owner.
    pub fn new_reference_counted() -> (s: Storage)
        ensures
            s@ == Mode::Counted(1),
    {
        Storage { word: 1 }
    }

    /// A cell for data that is never counted and never released.
    pub fn new_readonly() -> (s: Storage)
        ensures
            s@ == Mode::ReadOnly,
    {
        Storage { word: 0 }
    }

    pub fn is_readonly(&self) -> (r: bool)
        ensures
            r == (self@ == Mode::ReadOnly),
    {
        self.word == 0
    }

    pub fn is_unique(&self) -> (r: bool)
        ensures
            r == self@.is_unique(),
    {
        self.word == 1
    }

    /// The number of live handles, or `None` for a read-only cell.
    pub fn reference_count(&self) -> (r: Option<usize>)
        ensures
            match r {
                Some(n) => self@ == Mode::Counted(n as nat),
                None => self@ == Mode::ReadOnly,
            },
    {
        if self.word == 0 {
            None
        } else {
            Some(self.word)
        }
    }

    /// Counts one more handle. A count that fills the machine word cannot
    /// grow, so such a cell is left out: the count never wraps.
    pub fn increment_reference_count(&mut self)
        requires
            old(self)@ != Mode::ReadOnly,
            old(self)@.can_increment(),
        ensures
            final(self)@ == old(self)@.incremented(),
    {
        self.word = self.word + 1;
    }

    /// Gives up one handle and says whether the allocation must now be
    /// released. The last handle leaves the cell as it is, since the cell
    /// goes away with its allocation; a read-only cell never changes.
    pub fn decrease(&mut self) -> (needs_dealloc: bool)
        ensures
            needs_dealloc == old(self)@.releases(),
            needs_dealloc ==> *final(self) == *old(self),
            !needs_dealloc ==> final(self)@ == old(self)@.decreased(),
    {
        if self.word == 1 {
            true
        } else if self.word == 0 {
            false
        } else {
            self.word = self.word - 1;
            false
        }
    }
}

} // verus!
