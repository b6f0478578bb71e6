//! The store of credit lines: at most one record per borrower, and the two
//! identities that the engine was set up with.
use vstd::prelude::*;
use crate::line::{CreditLine, CreditLineData};

verus! {

/// The mathematical model of a ledger.
pub struct LedgerState {
    /// The administrator, once the engine has been set up.
    pub admin: Option<Seq<char>>,
    /// The asset in which the reserve is held, once the engine has been set up.
    pub reserve_asset: Option<Seq<char>>,
    /// The record of each borrower that has one.
    pub lines: Map<Seq<char>, CreditLine>,
}

impl LedgerState {
    /// The ledger before anything has happened.
    pub open spec fn empty() -> LedgerState {
        LedgerState { admin: None, reserve_asset: None, lines: Map::empty() }
    }

    /// Whether `borrower` has a record.
    pub open spec fn has_line(self, borrower: Seq<char>) -> bool {
        self.lines.contains_key(borrower)
    }

    /// The record of `borrower`, if there is one.
    pub open spec fn line(self, borrower: Seq<char>) -> Option<CreditLine> {
        if self.has_line(borrower) {
            Some(self.lines[borrower])
        } else {
            None
        }
    }

    /// The ledger with `line` as the record of its borrower.
    pub open spec fn with_line(self, line: CreditLine) -> LedgerState {
        LedgerState { lines: self.lines.insert(line.borrower, line), ..self }
    }

    /// The ledger set up with an administrator and a reserve asset.
    pub open spec fn with_roles(self, admin: Seq<char>, reserve_asset: Seq<char>) -> LedgerState {
        LedgerState { admin: Some(admin), reserve_asset: Some(reserve_asset), ..self }
    }

    /// Whether `who` is the administrator.
    pub open spec fn is_admin(self, who: Seq<char>) -> bool {
        self.admin == Some(who)
    }

    /// Whether the engine has been set up: an administrator and a reserve
    /// asset are named.
    pub open spec fn is_set_up(self) -> bool {
        self.admin is Some && self.reserve_asset is Some
    }

    /// Whether every record is stored under its own borrower.
    pub open spec fn keyed(self) -> bool {
        forall|b: Seq<char>| #[trigger] self.lines.contains_key(b) ==> self.lines[b].borrower == b
    }

    /// Whether every record keeps its utilization between zero and its limit.
    pub open spec fn within_limits(self) -> bool {
        forall|b: Seq<char>| #[trigger] self.lines.contains_key(b) ==> self.lines[b].within_limit()
    }
}

/// The text of an identity that may be absent.
pub open spec fn text_of(who: Option<String>) -> Option<Seq<char>> {
    match who {
        Some(name) => Some(name@),
        None => None,
    }
}

/// The model of a record that may be absent.
pub open spec fn model_of(line: Option<CreditLineData>) -> Option<CreditLine> {
    match line {
        Some(l) => Some(l@),
        None => None,
    }
}

/// The store of credit lines.
pub struct Ledger {
    admin: Option<String>,
    reserve_asset: Option<String>,
    lines: Vec<CreditLineData>,
}

impl View for Ledger {
    type V = LedgerState;

    closed spec fn view(&self) -> LedgerState {
        LedgerState {
            admin: text_of(self.admin),
            reserve_asset: text_of(self.reserve_asset),
            lines: by_borrower(self.lines@),
        }
    }
}

/// Whether the record at `i` belongs to `borrower`.
spec fn at(lines: Seq<CreditLineData>, i: int, borrower: Seq<char>) -> bool {
    0 <= i < lines.len() && lines[i].borrower@ == borrower
}

/// Whether some record belongs to `borrower`.
spec fn listed(lines: Seq<CreditLineData>, borrower: Seq<char>) -> bool {
    exists|i: int| at(lines, i, borrower)
}

/// Where the record of `borrower` is kept.
spec fn slot(lines: Seq<CreditLineData>, borrower: Seq<char>) -> int {
    choose|i: int| at(lines, i, borrower)
}

/// No borrower has two records.
spec fn one_line_each(lines: Seq<CreditLineData>) -> bool {
    forall|i: int, j: int|
        0 <= i < j < lines.len() ==> #[trigger] lines[i].borrower@ != #[trigger] lines[j].borrower@
}

/// The records, each under its borrower.
spec fn by_borrower(lines: Seq<CreditLineData>) -> Map<Seq<char>, CreditLine> {
    Map::new(|b: Seq<char>| listed(lines, b), |b: Seq<char>| lines[slot(lines, b)]@)
}

/// A borrower's record is the one found at the borrower's index.
proof fn lemma_found(lines: Seq<CreditLineData>, i: int, borrower: Seq<char>)
    requires
        one_line_each(lines),
        at(lines, i, borrower),
    ensures
        listed(lines, borrower),
        slot(lines, borrower) == i,
        by_borrower(lines)[borrower] == lines[i]@,
{
    let k = slot(lines, borrower);
    assert(at(lines, k, borrower));
    if k < i {
        assert(lines[k].borrower@ != lines[i].borrower@);
    } else if i < k {
        assert(lines[i].borrower@ != lines[k].borrower@);
    }
}

/// Replacing or appending a borrower's record keeps one record each and
/// changes the map at that borrower alone.
proof fn lemma_stored(
    before: Seq<CreditLineData>,
    after: Seq<CreditLineData>,
    i: int,
    line: CreditLineData,
)
    requires
        one_line_each(before),
        0 <= i <= before.len(),
        i < before.len() ==> at(before, i, line.borrower@) && after == before.update(i, line),
        i == before.len() ==> !listed(before, line.borrower@) && after == before.push(line),
    ensures
        one_line_each(after),
        by_borrower(after) == by_borrower(before).insert(line.borrower@, line@),
{
    assert(at(after, i, line.borrower@));
    assert forall|j: int, k: int| 0 <= j < k < after.len() implies #[trigger] after[j].borrower@
        != #[trigger] after[k].borrower@ by {
        if k < before.len() {
            assert(before[j].borrower@ != before[k].borrower@);
        } else {
            assert(!at(before, j, line.borrower@));
        }
    }
    let want = by_borrower(before).insert(line.borrower@, line@);
    assert forall|b: Seq<char>| by_borrower(after).contains_key(b) == want.contains_key(b) by {
        if listed(before, b) {
            let k = slot(before, b);
            assert(at(before, k, b));
            assert(at(after, k, b));
        }
        if listed(after, b) && b != line.borrower@ {
            let k = slot(after, b);
            assert(at(after, k, b));
            assert(at(before, k, b));
        }
    }
    assert forall|b: Seq<char>| by_borrower(after).contains_key(b) implies by_borrower(after)[b]
        == want[b] by {
        if b == line.borrower@ {
            lemma_found(after, i, b);
        } else {
            let k = slot(after, b);
            assert(at(after, k, b));
            assert(at(before, k, b));
            lemma_found(before, k, b);
        }
    }
    assert(by_borrower(after) =~= want);
}

impl Ledger {
    /// What every ledger satisfies: no borrower has two records.
    #[verifier::type_invariant]
    spec fn well_formed(self) -> bool {
        one_line_each(self.lines@)
    }

    /// An empty ledger, not yet set up.
    pub fn new() -> (ledger: Ledger)
        ensures
            ledger@ == LedgerState::empty(),
    {
        let ledger = Ledger { admin: None, reserve_asset: None, lines: Vec::new() };
        assert(ledger@.lines =~= Map::<Seq<char>, CreditLine>::empty());
        ledger
    }

    /// Every record is stored under its own borrower.
    pub proof fn lemma_keyed(&self)
        ensures
            self@.keyed(),
    {
        assert forall|b: Seq<char>| #[trigger] self@.lines.contains_key(b) implies self@.lines[b].borrower
            == b by {
            assert(at(self.lines@, slot(self.lines@, b), b));
        }
    }

    /// Names the administrator and the reserve asset. The records stay.
    pub fn set_roles(&mut self, admin: &String, reserve_asset: &String)
        ensures
            final(self)@ == old(self)@.with_roles(admin@, reserve_asset@),
    {
        proof {
            use_type_invariant(&*self);
        }
        self.admin = Some(admin.clone());
        self.reserve_asset = Some(reserve_asset.clone());
    }

    /// Whether `who` is the administrator.
    pub fn is_admin(&self, who: &String) -> (yes: bool)
        ensures
            yes == self@.is_admin(who@),
    {
        match &self.admin {
            Some(admin) => *admin == *who,
            None => false,
        }
    }

    /// The asset in which the reserve is held, once the engine has been set up.
    pub fn reserve_asset(&self) -> (asset: Option<String>)
        ensures
            text_of(asset) == self@.reserve_asset,
    {
        match &self.reserve_asset {
            Some(asset) => Some(asset.clone()),
            None => None,
        }
    }

    /// The index of the record of `borrower`, or the number of records if
    /// there is none.
    fn find(&self, borrower: &String) -> (i: usize)
        ensures
            i <= self.lines@.len(),
            i < self.lines@.len() ==> at(self.lines@, i as int, borrower@),
            i == self.lines@.len() ==> !listed(self.lines@, borrower@),
    {
        let mut i: usize = 0;
        while i < self.lines.len()
            invariant
                i <= self.lines@.len(),
                forall|k: int| 0 <= k < i ==> !at(self.lines@, k, borrower@),
            decreases self.lines@.len() - i,
        {
            if self.lines[i].borrower == *borrower {
                return i;
            }
            i += 1;
        }
        i
    }

    /// The record of `borrower`, or `None` if there is none.
    pub fn get(&self, borrower: &String) -> (line: Option<CreditLineData>)
        ensures
            model_of(line) == self@.line(borrower@),
    {
        let i: usize = self.find(borrower);
        if i < self.lines.len() {
            proof {
                use_type_invariant(self);
                lemma_found(self.lines@, i as int, borrower@);
            }
            Some(self.lines[i].clone())
        } else {
            None
        }
    }

    /// Stores `line` as the record of its borrower, in place of the one that
    /// the borrower had, if any. No other record changes.
    pub fn put(&mut self, line: CreditLineData)
        ensures
            final(self)@ == old(self)@.with_line(line@),
    {
        let i: usize = self.find(&line.borrower);
        proof {
            use_type_invariant(&*self);
        }
        let ghost stored = line;
        // The records leave the ledger while they change, so that the ledger
        // is well formed whenever it is whole.
        let mut lines: Vec<CreditLineData> = Vec::new();
        core::mem::swap(&mut self.lines, &mut lines);
        if i < lines.len() {
            lines.set(i, line);
        } else {
            lines.push(line);
        }
        proof {
            lemma_stored(old(self).lines@, lines@, i as int, stored);
        }
        core::mem::swap(&mut self.lines, &mut lines);
    }
}

} // verus!
