//! An in-memory store keeping the storage collaborator's contract: list,
//! put (insert or update by identifier) and delete. It stands in for the
//! real database in tests, and it is the model against which the law that
//! an accepted edit survives a resync is proved.

use vstd::prelude::*;

use crate::account::{account_nav_model, account_sync_model, account_wf, AccountModel};
use crate::fields::{write_back_model, write_back_ok};
use crate::table::navigate_commit;
use crate::types::{
    items_view, trn_wf, NavEvent, StorageError, Transaction, TransactionModel,
};

verus! {

/// The in-memory store: the persisted transactions, each with an
/// identifier, and the next identifier to hand out.
#[derive(Debug)]
pub struct MemoryStore {
    items: Vec<Transaction>,
    next_id: isize,
}

/// Mathematical image of the store.
pub ghost struct StoreModel {
    pub items: Seq<TransactionModel>,
    pub next_id: int,
}

impl View for MemoryStore {
    type V = StoreModel;

    closed spec fn view(&self) -> StoreModel {
        StoreModel { items: items_view(self.items@), next_id: self.next_id as int }
    }
}

/// The invariant of the store: every held transaction is well formed and
/// carries a distinct identifier below the next one to hand out.
pub open spec fn store_wf(m: StoreModel) -> bool {
    &&& 1 <= m.next_id
    &&& forall|i: int|
        0 <= i < m.items.len() ==> ((#[trigger] m.items[i]).transaction_id matches Some(id) && 1
            <= id < m.next_id)
    &&& forall|i: int| 0 <= i < m.items.len() ==> trn_wf(#[trigger] m.items[i])
    &&& forall|i: int, j: int|
        0 <= i < j < m.items.len() ==> (#[trigger] m.items[i]).transaction_id != (
        #[trigger] m.items[j]).transaction_id
}

/// Index of the transaction with this identifier, or a negative number
/// when there is none.
pub open spec fn find_id(items: Seq<TransactionModel>, id: int) -> int
    decreases items.len(),
{
    if items.len() == 0 {
        -1
    } else if items[0].transaction_id == Some(id) {
        0
    } else if find_id(items.drop_first(), id) < 0 {
        -1
    } else {
        find_id(items.drop_first(), id) + 1
    }
}

/// When the transaction with this identifier stands at `k` and at no
/// earlier index, `k` is where `find_id` points.
pub proof fn lemma_find_id_at(items: Seq<TransactionModel>, id: int, k: int)
    requires
        0 <= k < items.len(),
        items[k].transaction_id == Some(id),
        forall|j: int| 0 <= j < k ==> (#[trigger] items[j]).transaction_id != Some(id),
    ensures
        find_id(items, id) == k,
    decreases k,
{
    if k > 0 {
        lemma_find_id_at(items.drop_first(), id, k - 1);
    }
}

/// When no transaction carries this identifier, `find_id` reports none.
pub proof fn lemma_find_id_none(items: Seq<TransactionModel>, id: int)
    requires
        forall|j: int|
            0 <= j < items.len() ==> (#[trigger] items[j]).transaction_id != Some(id),
    ensures
        find_id(items, id) == -1,
    decreases items.len(),
{
    if items.len() > 0 {
        lemma_find_id_none(items.drop_first(), id);
    }
}

/// The store after persisting one transaction: an update in place when its
/// identifier is already held, an append under a fresh identifier when it
/// has none yet, and no change when the identifier is unknown.
pub open spec fn store_put_model(m: StoreModel, t: TransactionModel) -> StoreModel {
    match t.transaction_id {
        Some(id) => {
            let j = find_id(m.items, id);
            if j >= 0 {
                StoreModel { items: m.items.update(j, t), ..m }
            } else {
                m
            }
        },
        None => StoreModel {
            items: m.items.push(TransactionModel { transaction_id: Some(m.next_id), ..t }),
            next_id: m.next_id + 1,
        },
    }
}

/// The identifier a put reports: the transaction's own, or the fresh one.
pub open spec fn store_put_result(m: StoreModel, t: TransactionModel) -> int {
    match t.transaction_id {
        Some(id) => id,
        None => m.next_id,
    }
}

/// The store's items after removing the one transaction carrying this
/// identifier, when one does.
pub open spec fn remove_id(items: Seq<TransactionModel>, id: int) -> Seq<TransactionModel> {
    let j = find_id(items, id);
    if j >= 0 {
        items.remove(j)
    } else {
        items
    }
}

/// The store's items after removing the transactions carrying the given
/// identifiers, one identifier at a time.
pub open spec fn remove_ids(items: Seq<TransactionModel>, ids: Seq<int>) -> Seq<TransactionModel>
    decreases ids.len(),
{
    if ids.len() == 0 {
        items
    } else {
        remove_ids(remove_id(items, ids[0]), ids.drop_first())
    }
}

/// The identifiers a vector holds.
pub open spec fn ids_view(ids: Seq<isize>) -> Seq<int> {
    ids.map_values(|id: isize| id as int)
}

impl MemoryStore {
    /// An empty store; identifiers start at one.
    pub fn new() -> (r: MemoryStore)
        ensures
            r@ == (StoreModel { items: Seq::empty(), next_id: 1 }),
            store_wf(r@),
    {
        let r = MemoryStore { items: Vec::new(), next_id: 1 };
        proof {
            assert(r@.items =~= Seq::<TransactionModel>::empty());
        }
        r
    }

    /// Every persisted transaction, in insertion order.
    pub fn list(&self) -> (r: Vec<Transaction>)
        ensures
            items_view(r@) == self@.items,
    {
        let mut r: Vec<Transaction> = Vec::new();
        let mut i: usize = 0;
        while i < self.items.len()
            invariant
                i <= self.items.len(),
                r@.len() == i as int,
                forall|x: int| 0 <= x < i ==> (#[trigger] r@[x])@ == self.items@[x]@,
            decreases self.items.len() - i,
        {
            r.push(self.items[i].duplicate());
            i += 1;
        }
        proof {
            assert forall|x: int| 0 <= x < r@.len() implies items_view(r@)[x]
                == items_view(self.items@)[x] by {
                assert(items_view(r@)[x] == r@[x]@);
                assert(items_view(self.items@)[x] == self.items@[x]@);
            }
            assert(items_view(r@) =~= items_view(self.items@));
        }
        r
    }

    /// Persists one transaction: updates the record with its identifier,
    /// or inserts it under a fresh identifier when it has none. Fails
    /// exactly when a fresh identifier is needed and none is left.
    pub fn put(&mut self, t: &Transaction) -> (r: Result<isize, StorageError>)
        requires
            store_wf(old(self)@),
            trn_wf(t@),
        ensures
            match r {
                Ok(id) => {
                    &&& final(self)@ == store_put_model(old(self)@, t@)
                    &&& id as int == store_put_result(old(self)@, t@)
                    &&& store_wf(final(self)@)
                },
                Err(_) => {
                    &&& t@.transaction_id is None
                    &&& old(self)@.next_id == isize::MAX as int
                    &&& final(self)@ == old(self)@
                },
            },
            r is Err <==> (t@.transaction_id is None && old(self)@.next_id == isize::MAX as int),
    {
        match t.transaction_id {
            Some(id) => {
                let mut j: usize = 0;
                while j < self.items.len()
                    invariant
                        j <= self.items.len(),
                        forall|x: int|
                            0 <= x < j ==> (#[trigger] self@.items[x]).transaction_id != Some(
                                id as int,
                            ),
                        self@ == old(self)@,
                        store_wf(self@),
                        t@.transaction_id == Some(id as int),
                        trn_wf(t@),
                    decreases self.items.len() - j,
                {
                    let found = match self.items[j].transaction_id {
                        Some(x) => x == id,
                        None => false,
                    };
                    if found {
                        proof {
                            lemma_find_id_at(self@.items, id as int, j as int);
                        }
                        let t2 = t.duplicate();
                        let ghost t2m = t2@;
                        self.items.set(j, t2);
                        proof {
                            assert forall|x: int| 0 <= x < self.items@.len() implies items_view(
                                self.items@,
                            )[x] == old(self)@.items.update(j as int, t2m)[x] by {
                                assert(items_view(self.items@)[x] == self.items@[x]@);
                            }
                            assert(items_view(self.items@) =~= old(self)@.items.update(
                                j as int,
                                t2m,
                            ));
                            assert(t2m == t@);
                            assert(self@ == store_put_model(old(self)@, t@));
                            assert(old(self)@.items[j as int].transaction_id == Some(id as int));
                            assert forall|x: int| 0 <= x < self@.items.len() implies (
                            #[trigger] self@.items[x]).transaction_id == old(
                                self,
                            )@.items[x].transaction_id && trn_wf(self@.items[x]) by {
                                if x == j {
                                    assert(self@.items[x] == t@);
                                } else {
                                    assert(self@.items[x] == old(self)@.items[x]);
                                    assert(trn_wf(old(self)@.items[x]));
                                }
                            }
                            assert(store_wf(self@));
                        }
                        return Ok(id);
                    }
                    j += 1;
                }
                proof {
                    lemma_find_id_none(self@.items, id as int);
                }
                Ok(id)
            },
            None => {
                if self.next_id == isize::MAX {
                    return Err(StorageError::IdsExhausted);
                }
                let mut t2 = t.duplicate();
                t2.transaction_id = Some(self.next_id);
                let ghost t2m = t2@;
                self.items.push(t2);
                self.next_id = self.next_id + 1;
                proof {
                    assert(items_view(self.items@) =~= old(self)@.items.push(t2m));
                    assert(t2m == (TransactionModel {
                        transaction_id: Some(old(self)@.next_id),
                        ..t@
                    }));
                }
                Ok(self.next_id - 1)
            },
        }
    }

    /// Removes the transactions with the given identifiers; an identifier
    /// that is not held is passed over.
    pub fn delete(&mut self, ids: &Vec<isize>)
        requires
            store_wf(old(self)@),
        ensures
            final(self)@.items == remove_ids(old(self)@.items, ids_view(ids@)),
            final(self)@.next_id == old(self)@.next_id,
            store_wf(final(self)@),
    {
        proof {
            assert(ids_view(ids@).subrange(0, ids@.len() as int) =~= ids_view(ids@));
        }
        let mut i: usize = 0;
        while i < ids.len()
            invariant
                i <= ids.len(),
                store_wf(self@),
                self@.next_id == old(self)@.next_id,
                remove_ids(self@.items, ids_view(ids@).subrange(i as int, ids@.len() as int))
                    == remove_ids(old(self)@.items, ids_view(ids@)),
            decreases ids.len() - i,
        {
            let ghost pre = self@.items;
            let ghost rest = ids_view(ids@).subrange(i as int, ids@.len() as int);
            let id = ids[i];
            self.delete_one(id);
            proof {
                assert(rest[0] == id as int);
                assert(rest.drop_first() =~= ids_view(ids@).subrange(i + 1, ids@.len() as int));
                assert(remove_ids(pre, rest) == remove_ids(
                    remove_id(pre, id as int),
                    rest.drop_first(),
                ));
            }
            i += 1;
        }
        proof {
            assert(ids_view(ids@).subrange(ids@.len() as int, ids@.len() as int)
                =~= Seq::<int>::empty());
        }
    }

    /// Removes the one transaction with this identifier, when it is held.
    fn delete_one(&mut self, id: isize)
        requires
            store_wf(old(self)@),
        ensures
            final(self)@.items == remove_id(old(self)@.items, id as int),
            final(self)@.next_id == old(self)@.next_id,
            store_wf(final(self)@),
    {
        let mut j: usize = 0;
        while j < self.items.len()
            invariant
                j <= self.items.len(),
                forall|x: int|
                    0 <= x < j ==> (#[trigger] self@.items[x]).transaction_id != Some(id as int),
                self@ == old(self)@,
                store_wf(self@),
            decreases self.items.len() - j,
        {
            let found = match self.items[j].transaction_id {
                Some(x) => x == id,
                None => false,
            };
            if found {
                proof {
                    lemma_find_id_at(self@.items, id as int, j as int);
                }
                self.items.remove(j);
                proof {
                    assert(items_view(self.items@) =~= old(self)@.items.remove(j as int));
                }
                return ;
            }
            j += 1;
        }
        proof {
            lemma_find_id_none(self@.items, id as int);
        }
    }
}

/// An accepted edit, persisted through the store and listed again, is what
/// a resynchronized account screen shows: when the edited text fits its
/// field and the screen's list is the store's, writing the edit back,
/// putting the edited transaction, and syncing the screen from the store
/// leaves the edited transaction — with the new value — at the same row.
pub proof fn lemma_write_survives_resync(a: AccountModel, st: StoreModel)
    requires
        account_wf(a),
        store_wf(st),
        a.items == st.items,
        a.table.mode is Editing,
    ensures
        ({
            let commit = navigate_commit(a.table, NavEvent::Interact);
            let a1 = account_nav_model(a, NavEvent::Interact);
            commit matches Some((row, col, text)) ==> write_back_ok(col, text) ==> {
                let t1 = write_back_model(a.items[row], col, text);
                let st1 = store_put_model(st, t1);
                let a2 = account_sync_model(a1, st1.items);
                &&& st1.items == a1.items
                &&& a2.items == a1.items
                &&& a2.items[row] == t1
            }
        }),
{
    let commit = navigate_commit(a.table, NavEvent::Interact);
    if commit is Some {
        let (row, col, text) = commit.unwrap();
        if write_back_ok(col, text) {
            let t1 = write_back_model(a.items[row], col, text);
            let a1 = account_nav_model(a, NavEvent::Interact);
            assert(0 <= row < a.items.len());
            assert((a.items[row].transaction_id matches Some(id) && 1 <= id));
            let id = a.items[row].transaction_id->0;
            assert(t1.transaction_id == Some(id));
            assert(forall|j: int|
                0 <= j < row ==> (#[trigger] st.items[j]).transaction_id != Some(id));
            lemma_find_id_at(st.items, id, row);
            assert(store_put_model(st, t1).items == st.items.update(row, t1));
            assert(a1.items == a.items.update(row, t1));
        }
    }
}

} // verus!
