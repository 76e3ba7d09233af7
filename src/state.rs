use vstd::prelude::*;

verus! {

/// A minted art item. Its fields never change after minting.
#[derive(Clone, Copy, Debug, PartialEq, Eq, Structural)]
pub struct Art {
    pub art_id: u64,
    pub price: u128,
    pub rfid: u64,
}

/// The configuration singleton.
#[derive(Clone, Debug)]
pub struct State {
    pub count: i32,
    pub owner: String,
    pub art_counter: u64,
    pub royalty_rate: u64,
}

/// One row of the balance table.
#[derive(Clone, Debug)]
pub struct BalanceEntry {
    pub account: String,
    pub amount: u128,
}

/// The persisted data of the marketplace: the configuration, the art catalog
/// (indexed by art id), the ownership index (indexed by art id) and the
/// balance table (one row per account that ever held a balance).
#[derive(Clone, Debug)]
pub struct Ledger {
    pub state: State,
    pub gallery: Vec<Art>,
    pub owners: Vec<String>,
    pub balances: Vec<BalanceEntry>,
}

/// No two rows of a balance table name the same account.
pub open spec fn accounts_unique(s: Seq<BalanceEntry>) -> bool {
    forall|i: int, j: int|
        0 <= i < s.len() && 0 <= j < s.len() && i != j ==> #[trigger] s[i].account@
            != #[trigger] s[j].account@
}

/// The balance table as a map from account to amount.
pub open spec fn balance_map(s: Seq<BalanceEntry>) -> Map<Seq<char>, u128> {
    Map::new(
        |a: Seq<char>| exists|i: int| 0 <= i < s.len() && s[i].account@ == a,
        |a: Seq<char>| s[choose|i: int| 0 <= i < s.len() && s[i].account@ == a].amount,
    )
}

impl Ledger {
    /// The art ids handed out so far are exactly the indices of the catalog,
    /// each item carries its own index, every item has an owner, and the
    /// balance table has one row per account.
    pub open spec fn wf(&self) -> bool {
        &&& self.gallery@.len() == self.state.art_counter as int
        &&& self.owners@.len() == self.gallery@.len()
        &&& forall|i: int| 0 <= i < self.gallery@.len() ==> (#[trigger] self.gallery@[i]).art_id == i
        &&& accounts_unique(self.balances@)
    }

    pub open spec fn balance_view(&self) -> Map<Seq<char>, u128> {
        balance_map(self.balances@)
    }

    /// The balance of an account; one that never deposited holds zero.
    pub open spec fn balance_of(&self, a: Seq<char>) -> u128 {
        if self.balance_view().contains_key(a) {
            self.balance_view()[a]
        } else {
            0
        }
    }

    /// Assembles a ledger from its four tables as loaded from storage, or
    /// `Corrupt` where they do not fit together.
    pub fn restore(
        state: State,
        gallery: Vec<Art>,
        owners: Vec<String>,
        balances: Vec<BalanceEntry>,
    ) -> (r: Result<Ledger, crate::error::ContractError>)
        ensures
            match r {
                Ok(l) => l.wf() && l.state == state && l.gallery@ == gallery@ && l.owners@
                    == owners@ && l.balances@ == balances@,
                Err(e) => e == crate::error::ContractError::Corrupt && !(Ledger {
                    state,
                    gallery,
                    owners,
                    balances,
                }).wf(),
            },
    {
        let ledger = Ledger { state, gallery, owners, balances };
        if ledger.gallery.len() as u64 != ledger.state.art_counter || ledger.owners.len()
            != ledger.gallery.len() {
            return Err(crate::error::ContractError::Corrupt);
        }
        let mut i: usize = 0;
        while i < ledger.gallery.len()
            invariant
                ledger == (Ledger { state, gallery, owners, balances }),
                i <= ledger.gallery@.len(),
                forall|j: int| 0 <= j < i ==> (#[trigger] ledger.gallery@[j]).art_id == j,
            decreases ledger.gallery@.len() - i,
        {
            if ledger.gallery[i].art_id != i as u64 {
                assert(ledger.gallery@[i as int].art_id != i);
                return Err(crate::error::ContractError::Corrupt);
            }
            i = i + 1;
        }
        let n = ledger.balances.len();
        let mut a: usize = 0;
        while a < n
            invariant
                ledger == (Ledger { state, gallery, owners, balances }),
                n == ledger.balances@.len(),
                a <= n,
                forall|x: int, y: int|
                    0 <= x < a && 0 <= y < n && x != y ==> #[trigger] ledger.balances@[x].account@
                        != #[trigger] ledger.balances@[y].account@,
            decreases n - a,
        {
            let mut b: usize = 0;
            while b < n
                invariant
                    ledger == (Ledger { state, gallery, owners, balances }),
                    n == ledger.balances@.len(),
                    a < n,
                    b <= n,
                    forall|x: int, y: int|
                        0 <= x < a && 0 <= y < n && x != y ==> #[trigger] ledger.balances@[x].account@
                            != #[trigger] ledger.balances@[y].account@,
                    forall|y: int|
                        0 <= y < b && y != a ==> ledger.balances@[a as int].account@
                            != #[trigger] ledger.balances@[y].account@,
                decreases n - b,
            {
                if b != a && ledger.balances[a].account == ledger.balances[b].account {
                    assert(ledger.balances@[a as int].account@ == ledger.balances@[b as int].account@);
                    assert(!accounts_unique(ledger.balances@));
                    return Err(crate::error::ContractError::Corrupt);
                }
                b = b + 1;
            }
            a = a + 1;
        }
        Ok(ledger)
    }

    /// Index of the balance row of `account`, if it has one.
    pub fn find_account(&self, account: &String) -> (r: Option<usize>)
        requires
            self.wf(),
        ensures
            match r {
                Some(k) => k < self.balances@.len() && self.balances@[k as int].account@
                    == account@,
                None => forall|i: int|
                    0 <= i < self.balances@.len() ==> (#[trigger] self.balances@[i]).account@
                        != account@,
            },
    {
        let mut i: usize = 0;
        while i < self.balances.len()
            invariant
                i <= self.balances@.len(),
                forall|j: int| 0 <= j < i ==> (#[trigger] self.balances@[j]).account@ != account@,
            decreases self.balances@.len() - i,
        {
            if self.balances[i].account == *account {
                return Some(i);
            }
            i = i + 1;
        }
        None
    }

    /// The stored balance of `account`, zero when it has no row.
    pub fn load_balance(&self, account: &String) -> (r: u128)
        requires
            self.wf(),
        ensures
            r == self.balance_of(account@),
    {
        match self.find_account(account) {
            Some(k) => {
                proof {
                    lemma_row_found(self.balances@, k as int);
                }
                self.balances[k].amount
            },
            None => {
                proof {
                    lemma_row_absent(self.balances@, account@);
                }
                0
            },
        }
    }

    /// Writes `amount` as the balance of `account`, leaving every other row.
    pub fn save_balance(&mut self, account: &String, amount: u128)
        requires
            old(self).wf(),
        ensures
            final(self).wf(),
            final(self).balance_view() == old(self).balance_view().insert(account@, amount),
            final(self).state == old(self).state,
            final(self).gallery@ == old(self).gallery@,
            final(self).owners@ == old(self).owners@,
    {
        let row = BalanceEntry { account: account.clone(), amount };
        match self.find_account(account) {
            Some(k) => {
                proof {
                    lemma_row_update(self.balances@, k as int, row);
                }
                self.balances.set(k, row);
            },
            None => {
                proof {
                    lemma_row_push(self.balances@, row);
                }
                self.balances.push(row);
            },
        }
    }
}

/// A row of a table with unique accounts gives the map's value for its account.
pub proof fn lemma_row_found(s: Seq<BalanceEntry>, k: int)
    requires
        accounts_unique(s),
        0 <= k < s.len(),
    ensures
        balance_map(s).contains_key(s[k].account@),
        balance_map(s)[s[k].account@] == s[k].amount,
{
    let a = s[k].account@;
    assert(balance_map(s).dom().contains(a));
    let c = choose|i: int| 0 <= i < s.len() && s[i].account@ == a;
    assert(c == k);
}

/// An account with no row is not in the map.
pub proof fn lemma_row_absent(s: Seq<BalanceEntry>, a: Seq<char>)
    requires
        forall|i: int| 0 <= i < s.len() ==> (#[trigger] s[i]).account@ != a,
    ensures
        !balance_map(s).contains_key(a),
{
}

/// Overwriting a row with one for the same account sets that account's value.
pub proof fn lemma_row_update(s: Seq<BalanceEntry>, k: int, row: BalanceEntry)
    requires
        accounts_unique(s),
        0 <= k < s.len(),
        row.account@ == s[k].account@,
    ensures
        accounts_unique(s.update(k, row)),
        balance_map(s.update(k, row)) == balance_map(s).insert(row.account@, row.amount),
{
    let t = s.update(k, row);
    assert(accounts_unique(t)) by {
        assert forall|i: int, j: int|
            0 <= i < t.len() && 0 <= j < t.len() && i != j implies #[trigger] t[i].account@
            != #[trigger] t[j].account@ by {
            assert(t[i].account@ == s[i].account@);
            assert(t[j].account@ == s[j].account@);
        }
    }
    let m = balance_map(s).insert(row.account@, row.amount);
    assert forall|a: Seq<char>| #[trigger] balance_map(t).contains_key(a) <==> m.contains_key(a) by {
        if a == row.account@ {
            assert(t[k] == row);
        }
        if m.contains_key(a) && a != row.account@ {
            let i = choose|i: int| 0 <= i < s.len() && s[i].account@ == a;
            assert(t[i].account@ == a);
        }
        if balance_map(t).contains_key(a) {
            let i = choose|i: int| 0 <= i < t.len() && t[i].account@ == a;
            assert(s[i].account@ == a);
        }
    }
    assert forall|a: Seq<char>| #[trigger] balance_map(t).contains_key(a) implies balance_map(
        t,
    )[a] == m[a] by {
        let i = choose|i: int| 0 <= i < t.len() && t[i].account@ == a;
        assert(s[i].account@ == a);
        if a == row.account@ {
            assert(i == k);
        } else {
            lemma_row_found(s, i);
            lemma_row_found(t, i);
        }
    }
    assert(balance_map(t) =~= m);
}

/// Appending a row for a new account adds that account to the map.
pub proof fn lemma_row_push(s: Seq<BalanceEntry>, row: BalanceEntry)
    requires
        accounts_unique(s),
        forall|i: int| 0 <= i < s.len() ==> (#[trigger] s[i]).account@ != row.account@,
    ensures
        accounts_unique(s.push(row)),
        balance_map(s.push(row)) == balance_map(s).insert(row.account@, row.amount),
{
    let t = s.push(row);
    assert(accounts_unique(t)) by {
        assert forall|i: int, j: int|
            0 <= i < t.len() && 0 <= j < t.len() && i != j implies #[trigger] t[i].account@
            != #[trigger] t[j].account@ by {
            if i < s.len() {
                assert(t[i] == s[i]);
            }
            if j < s.len() {
                assert(t[j] == s[j]);
            }
        }
    }
    let m = balance_map(s).insert(row.account@, row.amount);
    assert forall|a: Seq<char>| #[trigger] balance_map(t).contains_key(a) <==> m.contains_key(a) by {
        if a == row.account@ {
            assert(t[s.len() as int] == row);
            assert(t[s.len() as int].account@ == a);
        } else if balance_map(s).contains_key(a) {
            let i = choose|i: int| 0 <= i < s.len() && s[i].account@ == a;
            assert(t[i] == s[i]);
            assert(t[i].account@ == a);
        } else if balance_map(t).contains_key(a) {
            let i = choose|i: int| 0 <= i < t.len() && t[i].account@ == a;
            if i < s.len() {
                assert(t[i] == s[i]);
                assert(s[i].account@ == a);
            } else {
                assert(t[i] == row);
            }
        }
    }
    assert forall|a: Seq<char>| #[trigger] balance_map(t).contains_key(a) implies balance_map(
        t,
    )[a] == m[a] by {
        let i = choose|i: int| 0 <= i < t.len() && t[i].account@ == a;
        lemma_row_found(t, i);
        if i < s.len() {
            assert(t[i] == s[i]);
            lemma_row_found(s, i);
        }
    }
    assert(balance_map(t) =~= m);
}

} // verus!
