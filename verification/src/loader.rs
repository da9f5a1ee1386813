//! Loading the sqlite3 library: which entry points are looked up, in which
//! order, and when loading counts as done or failed.
use vstd::prelude::*;

verus! {

/// Which of the four sqlite3 entry points a loaded library provides.
pub struct SymbolTable {
    pub has_open_v2: bool,
    pub has_close: bool,
    pub has_exec: bool,
    pub has_free: bool,
}

/// How many entry points a load looks up.
pub const SYMBOL_COUNT: usize = 4;

/// The name of the `i`-th entry point that a load looks up.
pub open spec fn symbol_name(i: int) -> Seq<char> {
    if i == 0 {
        "sqlite3_open_v2"@
    } else if i == 1 {
        "sqlite3_close"@
    } else if i == 2 {
        "sqlite3_exec"@
    } else {
        "sqlite3_free"@
    }
}

/// The name of the `i`-th entry point that a load looks up: `sqlite3_open_v2`,
/// `sqlite3_close`, `sqlite3_exec`, `sqlite3_free`.
pub fn symbol_name_at(i: usize) -> (s: &'static str)
    requires
        i < SYMBOL_COUNT,
    ensures
        s@ == symbol_name(i as int),
{
    if i == 0 {
        "sqlite3_open_v2"
    } else if i == 1 {
        "sqlite3_close"
    } else if i == 2 {
        "sqlite3_exec"
    } else {
        "sqlite3_free"
    }
}

/// What a load does next.
pub enum LoadStep {
    /// Look up the entry point with this index.
    LookUp(usize),
    /// Every entry point was found: the library is loaded.
    Loaded,
    /// The library did not open, or a lookup failed: the load fails.
    Failed,
}

/// Whether one of the lookups made so far failed.
pub open spec fn some_lookup_failed(found: Seq<bool>) -> bool {
    exists|i: int| 0 <= i < found.len() && i < SYMBOL_COUNT && !found[i]
}

/// The next step of a load, given whether the library opened and the
/// outcomes of the lookups made so far, in order.
pub open spec fn load_step(opened: bool, found: Seq<bool>) -> LoadStep {
    if !opened || some_lookup_failed(found) {
        LoadStep::Failed
    } else if found.len() < SYMBOL_COUNT {
        LoadStep::LookUp(found.len() as usize)
    } else {
        LoadStep::Loaded
    }
}

/// Decides the next step of a load: a load opens the library, then looks
/// up the four entry points in order and stops at the first that is missing.
pub fn load_next(opened: bool, found: &Vec<bool>) -> (step: LoadStep)
    ensures
        step == load_step(opened, found@),
{
    if !opened {
        return LoadStep::Failed;
    }
    let n: usize = found.len();
    let mut i: usize = 0;
    while i < n && i < SYMBOL_COUNT
        invariant
            i <= n,
            n == found@.len(),
            forall|j: int| 0 <= j < i ==> found@[j],
        decreases n - i,
    {
        if !found[i] {
            return LoadStep::Failed;
        }
        i = i + 1;
    }
    if n < SYMBOL_COUNT {
        LoadStep::LookUp(n)
    } else {
        LoadStep::Loaded
    }
}

/// The table of the entry points whose lookups, in the order of
/// `symbol_name`, were made and succeeded.
pub open spec fn lookup_table(found: Seq<bool>) -> SymbolTable {
    SymbolTable {
        has_open_v2: found.len() > 0 && found[0],
        has_close: found.len() > 1 && found[1],
        has_exec: found.len() > 2 && found[2],
        has_free: found.len() > 3 && found[3],
    }
}

impl SymbolTable {
    /// Whether all four entry points are present.
    pub open spec fn complete(&self) -> bool {
        self.has_open_v2 && self.has_close && self.has_exec && self.has_free
    }

    /// The table that a load leaves behind: an entry point is present when
    /// its lookup was made and succeeded.
    pub fn from_lookups(found: &Vec<bool>) -> (t: SymbolTable)
        ensures
            t == lookup_table(found@),
    {
        let n: usize = found.len();
        SymbolTable {
            has_open_v2: n > 0 && found[0],
            has_close: n > 1 && found[1],
            has_exec: n > 2 && found[2],
            has_free: n > 3 && found[3],
        }
    }
}

/// A load fails only for a reason: the library did not open, or one of the
/// lookups made, among the four, failed. While every lookup so far
/// succeeded and fewer than four were made, the next one is looked up, the
/// one after those already made; after four successful lookups the library
/// is loaded.
pub proof fn load_fails_only_for_a_reason(opened: bool, found: Seq<bool>)
    ensures
        load_step(opened, found) is Failed ==> !opened || exists|i: int| 0 <= i < found.len() && i < 4 && !found[i],
        opened && (forall|i: int| 0 <= i < found.len() ==> found[i]) && found.len() < 4 ==> load_step(opened, found)
            == LoadStep::LookUp(found.len() as usize),
        opened && found.len() == 4 && (forall|i: int| 0 <= i < 4 ==> found[i]) ==> load_step(opened, found)
            == LoadStep::Loaded,
{
    if opened && (forall|i: int| 0 <= i < found.len() ==> found[i]) {
        assert(!some_lookup_failed(found));
    }
}

/// A load that ends in `Loaded` leaves every entry point present.
pub proof fn loaded_library_is_complete(opened: bool, found: Seq<bool>)
    requires
        load_step(opened, found) == LoadStep::Loaded,
    ensures
        found.len() > 3 && found[0] && found[1] && found[2] && found[3],
        lookup_table(found).complete(),
{
    assert(!some_lookup_failed(found));
    assert(found.len() >= SYMBOL_COUNT);
    assert(found[0]) by { assert(!(0 < found.len() && 0 < SYMBOL_COUNT && !found[0])); }
    assert(found[1]) by { assert(!(1 < found.len() && 1 < SYMBOL_COUNT && !found[1])); }
    assert(found[2]) by { assert(!(2 < found.len() && 2 < SYMBOL_COUNT && !found[2])); }
    assert(found[3]) by { assert(!(3 < found.len() && 3 < SYMBOL_COUNT && !found[3])); }
}

} // verus!
