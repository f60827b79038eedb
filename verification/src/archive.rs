//! Archived copies: filing a superseded token generation into its previous
//! owner's collection, reading collections back, and owner-initiated
//! removal.
use vstd::prelude::*;

use crate::errors::MarketError;
use crate::state::Market;
use crate::state::MarketModel;
use crate::token::CollectionItem;
use crate::token::StorageSize;
use crate::token::TokenGeneration;
use crate::token::derived_token_id;
use crate::token::generate_token_id;

verus! {

/// Whether the archive set `s` holds the entry `e`.
pub open spec fn contains_entry(
    s: Seq<(Seq<char>, TokenGeneration)>,
    e: (Seq<char>, TokenGeneration),
) -> bool {
    exists|i: int| 0 <= i < s.len() && s[i] == e
}

/// The archive set with `e` filed into it; filing an entry twice changes
/// nothing.
pub open spec fn spec_add_entry(
    s: Seq<(Seq<char>, TokenGeneration)>,
    e: (Seq<char>, TokenGeneration),
) -> Seq<(Seq<char>, TokenGeneration)> {
    if contains_entry(s, e) {
        s
    } else {
        s.push(e)
    }
}

/// The archive set with the first occurrence of `e` removed.
pub open spec fn spec_remove_entry(
    s: Seq<(Seq<char>, TokenGeneration)>,
    e: (Seq<char>, TokenGeneration),
) -> Seq<(Seq<char>, TokenGeneration)>
    decreases s.len(),
{
    if s.len() == 0 {
        s
    } else if s[0] == e {
        s.drop_first()
    } else {
        seq![s[0]] + spec_remove_entry(s.drop_first(), e)
    }
}

/// The state after filing generation `generation` of a token into
/// `account_id`'s collection: the derived identifier is minted to the
/// account in the registry, and the pair joins the account's archive set.
pub open spec fn spec_store_nft(
    m: MarketModel,
    token_id: Seq<char>,
    generation: TokenGeneration,
    account_id: Seq<char>,
) -> MarketModel {
    MarketModel {
        registry: m.registry.insert(derived_token_id(generation, token_id), account_id),
        collections: m.collections.insert(
            account_id,
            spec_add_entry(m.collection_of(account_id), (token_id, generation)),
        ),
        ..m
    }
}

pub(crate) fn clone_items(v: &Vec<CollectionItem>) -> (r: Vec<CollectionItem>)
    ensures
        r@ == v@,
{
    let n = v.len();
    let mut out: Vec<CollectionItem> = Vec::new();
    let mut i: usize = 0;
    while i < n
        invariant
            n == v@.len(),
            i <= n,
            out@.len() == i,
            forall|j: int| 0 <= j < i ==> out@[j] == v@[j],
        decreases n - i,
    {
        out.push(v[i].clone());
        i = i + 1;
    }
    proof {
        assert(out@ =~= v@);
    }
    out
}

impl Market {
    /// How many items `account_id` has archived.
    pub fn get_user_collection_items(&self, account_id: &String) -> (r: StorageSize)
        requires
            self.wf(),
        ensures
            r == self@.collection_count(account_id@),
    {
        match self.user_collection_items.get(account_id) {
            Some(items) => items.len() as StorageSize,
            None => 0,
        }
    }

    /// How many items `account_id` has archived.
    pub fn get_collection_items(&self, account_id: &String) -> (r: StorageSize)
        requires
            self.wf(),
        ensures
            r == self@.collection_count(account_id@),
    {
        self.get_user_collection_items(account_id)
    }

    /// The archived items of `account_id`, or nothing for an account with
    /// no collection.
    pub fn get_collection(&self, account_id: &String) -> (r: Option<Vec<CollectionItem>>)
        requires
            self.wf(),
        ensures
            match r {
                Some(v) => self@.collections.contains_key(account_id@) && v.deep_view()
                    == self@.collection_of(account_id@),
                None => !self@.collections.contains_key(account_id@),
            },
    {
        match self.user_collection_items.get(account_id) {
            Some(items) => Some(clone_items(items)),
            None => None,
        }
    }

    /// Files generation `generation` of a token into `account_id`'s
    /// collection. Rejected when the derived identifier is already taken in
    /// the registry.
    pub fn store_nft(
        &mut self,
        token_id: &String,
        generation: TokenGeneration,
        account_id: &String,
    ) -> (r: Result<(), MarketError>)
        requires
            old(self).wf(),
        ensures
            final(self).wf(),
            r is Ok <==> !old(self)@.registry.contains_key(
                derived_token_id(generation, token_id@),
            ),
            r is Ok ==> final(self)@ == spec_store_nft(
                old(self)@,
                token_id@,
                generation,
                account_id@,
            ),
            r is Err ==> final(self)@ == old(self)@ && r == Err::<(), MarketError>(
                MarketError::TokenExists,
            ),
    {
        let ghost m0 = self@;
        let derived = generate_token_id(&generation, token_id);
        if self.registry.contains_key(&derived) {
            return Err(MarketError::TokenExists);
        }
        self.registry.insert(derived, account_id.clone());
        let mut items: Vec<CollectionItem> = match self.user_collection_items.get(account_id) {
            Some(v) => clone_items(v),
            None => Vec::new(),
        };
        let ghost items0 = items.deep_view();
        proof {
            assert(items0 =~= m0.collection_of(account_id@));
        }
        let n = items.len();
        let mut present = false;
        let mut i: usize = 0;
        while i < n
            invariant
                n == items@.len(),
                i <= n,
                items.deep_view() == items0,
                present == exists|j: int|
                    0 <= j < i && items@[j].token_id@ == token_id@ && items@[j].generation
                        == generation,
            decreases n - i,
        {
            if items[i].token_id == *token_id && items[i].generation == generation {
                present = true;
            }
            i = i + 1;
        }
        proof {
            if present {
                let j = choose|j: int|
                    0 <= j < n && items@[j].token_id@ == token_id@ && items@[j].generation
                        == generation;
                assert(items0[j] == (token_id@, generation));
            }
            if contains_entry(items0, (token_id@, generation)) {
                let j = choose|j: int| 0 <= j < items0.len() && items0[j] == (token_id@, generation);
                assert(items@[j].token_id@ == token_id@ && items@[j].generation == generation);
            }
            assert(present == contains_entry(items0, (token_id@, generation)));
        }
        if !present {
            items.push(CollectionItem { token_id: token_id.clone(), generation });
            proof {
                assert(items.deep_view() =~= items0.push((token_id@, generation)));
            }
        }
        self.user_collection_items.insert(account_id.clone(), items);
        proof {
            assert(self@ =~~= spec_store_nft(m0, token_id@, generation, account_id@));
        }
        Ok(())
    }

    /// Removes the archived copy `(token_id, generation)` from
    /// `account_id`'s collection and deletes its registry entry. Rejected
    /// with `NotFound` when the account holds no such item.
    pub fn internal_remove_user_collection_item(
        &mut self,
        account_id: String,
        generation: TokenGeneration,
        token_id: String,
    ) -> (r: Result<(), MarketError>)
        requires
            old(self).wf(),
        ensures
            final(self).wf(),
            r is Ok <==> contains_entry(
                old(self)@.collection_of(account_id@),
                (token_id@, generation),
            ),
            r is Ok ==> final(self)@ == (MarketModel {
                registry: old(self)@.registry.remove(derived_token_id(generation, token_id@)),
                collections: old(self)@.collections.insert(
                    account_id@,
                    spec_remove_entry(
                        old(self)@.collection_of(account_id@),
                        (token_id@, generation),
                    ),
                ),
                ..old(self)@
            }),
            r is Err ==> final(self)@ == old(self)@ && r == Err::<(), MarketError>(
                MarketError::NotFound,
            ),
    {
        let ghost m0 = self@;
        let items_ref = match self.user_collection_items.get(&account_id) {
            Some(v) => v,
            None => {
                return Err(MarketError::NotFound);
            },
        };
        let mut items = clone_items(items_ref);
        let ghost items0 = items.deep_view();
        proof {
            assert(items0 =~= m0.collection_of(account_id@));
        }
        let n = items.len();
        let mut found: Option<usize> = None;
        let mut i: usize = 0;
        while i < n
            invariant
                n == items@.len(),
                i <= n,
                items.deep_view() == items0,
                match found {
                    Some(k) => k < n && items@[k as int].token_id@ == token_id@
                        && items@[k as int].generation == generation && forall|j: int|
                        0 <= j < k ==> items0[j] != (token_id@, generation),
                    None => forall|j: int| 0 <= j < i ==> items0[j] != (token_id@, generation),
                },
            decreases n - i,
        {
            if found.is_none() && items[i].token_id == token_id && items[i].generation
                == generation {
                found = Some(i);
            }
            i = i + 1;
        }
        match found {
            Some(k) => {
                proof {
                    assert(items0[k as int] == (token_id@, generation));
                }
                items.remove(k);
                proof {
                    lemma_remove_entry_at(items0, (token_id@, generation), k as int);
                    assert(items.deep_view() =~= items0.remove(k as int));
                    assert(items.deep_view() == spec_remove_entry(
                        items0,
                        (token_id@, generation),
                    ));
                }
                let derived = generate_token_id(&generation, &token_id);
                self.registry.remove(&derived);
                self.user_collection_items.insert(account_id, items);
                proof {
                    assert(self@ =~~= (MarketModel {
                        registry: m0.registry.remove(derived_token_id(generation, token_id@)),
                        collections: m0.collections.insert(
                            account_id@,
                            spec_remove_entry(
                                m0.collection_of(account_id@),
                                (token_id@, generation),
                            ),
                        ),
                        ..m0
                    }));
                }
                Ok(())
            },
            None => {
                proof {
                    if contains_entry(items0, (token_id@, generation)) {
                        let j = choose|j: int|
                            0 <= j < items0.len() && items0[j] == (token_id@, generation);
                        assert(items0[j] != (token_id@, generation));
                    }
                    assert(!contains_entry(items0, (token_id@, generation)));
                }
                Err(MarketError::NotFound)
            },
        }
    }

    /// Owner-initiated removal of one of the caller's own archived copies.
    pub fn remove_user_collection_item(
        &mut self,
        caller: String,
        generation: TokenGeneration,
        token_id: String,
    ) -> (r: Result<(), MarketError>)
        requires
            old(self).wf(),
        ensures
            final(self).wf(),
            r is Ok <==> contains_entry(old(self)@.collection_of(caller@), (token_id@, generation)),
            r is Ok ==> final(self)@ == (MarketModel {
                registry: old(self)@.registry.remove(derived_token_id(generation, token_id@)),
                collections: old(self)@.collections.insert(
                    caller@,
                    spec_remove_entry(old(self)@.collection_of(caller@), (token_id@, generation)),
                ),
                ..old(self)@
            }),
            r is Err ==> final(self)@ == old(self)@ && r == Err::<(), MarketError>(
                MarketError::NotFound,
            ),
    {
        self.internal_remove_user_collection_item(caller, generation, token_id)
    }

    /// Administrative removal of an archived copy from any account's
    /// collection; only the operator may call it.
    pub fn remove_user_collection_item_for_user(
        &mut self,
        caller: &String,
        account_id: String,
        generation: TokenGeneration,
        token_id: String,
    ) -> (r: Result<(), MarketError>)
        requires
            old(self).wf(),
        ensures
            final(self).wf(),
            caller@ != old(self)@.owner_id ==> r == Err::<(), MarketError>(MarketError::Unauthorized)
                && final(self)@ == old(self)@,
            caller@ == old(self)@.owner_id ==> {
                &&& r is Ok <==> contains_entry(
                    old(self)@.collection_of(account_id@),
                    (token_id@, generation),
                )
                &&& r is Ok ==> final(self)@ == (MarketModel {
                    registry: old(self)@.registry.remove(derived_token_id(generation, token_id@)),
                    collections: old(self)@.collections.insert(
                        account_id@,
                        spec_remove_entry(
                            old(self)@.collection_of(account_id@),
                            (token_id@, generation),
                        ),
                    ),
                    ..old(self)@
                })
                &&& r is Err ==> final(self)@ == old(self)@ && r == Err::<(), MarketError>(
                    MarketError::NotFound,
                )
            },
    {
        self.assert_owner(caller)?;
        self.internal_remove_user_collection_item(account_id, generation, token_id)
    }
}

/// Removing the first occurrence of `e`, when it sits at index `k` with
/// nothing equal before it, is removing index `k`.
proof fn lemma_remove_entry_at(
    s: Seq<(Seq<char>, TokenGeneration)>,
    e: (Seq<char>, TokenGeneration),
    k: int,
)
    requires
        0 <= k < s.len(),
        s[k] == e,
        forall|j: int| 0 <= j < k ==> s[j] != e,
    ensures
        spec_remove_entry(s, e) == s.remove(k),
    decreases s.len(),
{
    if k == 0 {
        assert(s.remove(0) =~= s.drop_first());
    } else {
        let t = s.drop_first();
        lemma_remove_entry_at(t, e, k - 1);
        assert(spec_remove_entry(s, e) == seq![s[0]] + spec_remove_entry(t, e));
        assert(seq![s[0]] + t.remove(k - 1) =~= s.remove(k));
    }
}

} // verus!
