//! Storage quotas: purchasable packages, and the two-phase transfer of
//! unused quota to a cooperating counterpart contract.
//!
//! A quota transfer zeroes the sender's local quota optimistically and
//! hands back an instruction for the counterpart; the counterpart credits
//! it through [`Market::on_transfer_storage`], and the sender's callback
//! re-credits locally when the counterpart reported failure — the same
//! compensation pattern as the payout ledger.
use vstd::prelude::*;

use crate::errors::MarketError;
use crate::state::Market;
use crate::state::MarketModel;
use crate::token::Balance;
use crate::token::StoragePackage;
use crate::token::StoragePackageIndex;
use crate::token::StorageSize;

verus! {

/// An instruction to offer `storage` quota units to the counterpart
/// contract on behalf of `account_id`.
#[derive(PartialEq, Eq, Debug)]
pub struct StorageGrant {
    pub account_id: String,
    pub storage: StorageSize,
}

impl Market {
    /// Buys storage package `index` for `receiver_id`: the deposit must
    /// cover the package price and the enlarged quota must stay within the
    /// configured maximum.
    pub fn buy_storage(
        &mut self,
        receiver_id: String,
        deposit: Balance,
        index: StoragePackageIndex,
    ) -> (r: Result<(), MarketError>)
        requires
            old(self).wf(),
        ensures
            final(self).wf(),
            !old(self)@.storage_packages.contains_key(index) ==> r == Err::<(), MarketError>(
                MarketError::NotFound,
            ) && final(self)@ == old(self)@,
            old(self)@.storage_packages.contains_key(index) ==> {
                let pkg = old(self)@.storage_packages[index];
                let grown = old(self)@.storage_of(receiver_id@) + pkg.storage_size;
                if deposit < pkg.price {
                    r == Err::<(), MarketError>(
                        MarketError::InsufficientPayment {
                            missing: (pkg.price - deposit) as Balance,
                        },
                    ) && final(self)@ == old(self)@
                } else if grown > old(self)@.max_storage_size {
                    r == Err::<(), MarketError>(MarketError::QuotaExceeded) && final(self)@ == old(
                        self,
                    )@
                } else {
                    r is Ok && final(self)@ == (MarketModel {
                        storage: old(self)@.storage.insert(receiver_id@, grown as StorageSize),
                        ..old(self)@
                    })
                }
            },
    {
        let ghost m0 = self@;
        let package: StoragePackage = match self.storage_packages.get(index) {
            Some(p) => *p,
            None => {
                return Err(MarketError::NotFound);
            },
        };
        if deposit < package.price {
            return Err(MarketError::InsufficientPayment { missing: package.price - deposit });
        }
        let old_storage = self.get_user_storage(&receiver_id);
        if old_storage > u64::MAX - package.storage_size {
            return Err(MarketError::QuotaExceeded);
        }
        let new_storage = old_storage + package.storage_size;
        if new_storage > self.max_storage_size {
            return Err(MarketError::QuotaExceeded);
        }
        self.storage.insert(receiver_id, new_storage);
        proof {
            assert(self@ =~~= (MarketModel {
                storage: m0.storage.insert(
                    receiver_id@,
                    (m0.storage_of(receiver_id@) + m0.storage_packages[index].storage_size)
                        as StorageSize,
                ),
                ..m0
            }));
        }
        Ok(())
    }

    /// Starts a quota transfer to the counterpart contract: the caller's
    /// unused quota (total minus what its tokens occupy) is zeroed locally
    /// and offered to the counterpart. The outcome must be reconciled via
    /// [`Market::callback_after_transfer_storage`].
    pub fn transfer_storage(&mut self, caller: String) -> (r: Result<StorageGrant, MarketError>)
        requires
            old(self).wf(),
        ensures
            final(self).wf(),
            old(self)@.storage_of(caller@) <= old(self)@.supply_of(caller@) ==> r == Err::<
                StorageGrant,
                MarketError,
            >(MarketError::QuotaExceeded) && final(self)@ == old(self)@,
            old(self)@.storage_of(caller@) > old(self)@.supply_of(caller@) ==> (r matches Ok(g)
                && g.account_id@ == caller@ && g.storage == old(self)@.storage_of(caller@) - old(
                self,
            )@.supply_of(caller@) && final(self)@ == (MarketModel {
                storage: old(self)@.storage.insert(caller@, 0),
                ..old(self)@
            })),
    {
        let ghost m0 = self@;
        let storage_size = self.get_user_storage(&caller);
        let storage_used = self.internal_total_supply_by_user(&caller);
        if storage_size <= storage_used {
            return Err(MarketError::QuotaExceeded);
        }
        let user_storage = storage_size - storage_used;
        self.storage.insert(caller.clone(), 0);
        proof {
            assert(self@ =~~= (MarketModel { storage: m0.storage.insert(caller@, 0), ..m0 }));
        }
        Ok(StorageGrant { account_id: caller, storage: user_storage })
    }

    /// Receives quota offered by the counterpart contract. Only the
    /// configured counterpart may call, and the enlarged quota must stay
    /// within the configured maximum.
    pub fn on_transfer_storage(
        &mut self,
        signer: &String,
        account_id: String,
        user_storage: StorageSize,
    ) -> (r: Result<(), MarketError>)
        requires
            old(self).wf(),
        ensures
            final(self).wf(),
            !(old(self)@.storage_contract_id matches Some(c) && c == signer@) ==> r == Err::<
                (),
                MarketError,
            >(MarketError::Unauthorized) && final(self)@ == old(self)@,
            (old(self)@.storage_contract_id matches Some(c) && c == signer@) ==> {
                let grown = old(self)@.storage_of(account_id@) + user_storage;
                if grown > old(self)@.max_storage_size {
                    r == Err::<(), MarketError>(MarketError::QuotaExceeded) && final(self)@ == old(
                        self,
                    )@
                } else {
                    r is Ok && final(self)@ == (MarketModel {
                        storage: old(self)@.storage.insert(account_id@, grown as StorageSize),
                        ..old(self)@
                    })
                }
            },
    {
        let ghost m0 = self@;
        let allowed = match &self.storage_contract_id {
            Some(c) => *c == *signer,
            None => false,
        };
        if !allowed {
            return Err(MarketError::Unauthorized);
        }
        let old_storage = self.get_user_storage(&account_id);
        if old_storage > u64::MAX - user_storage {
            return Err(MarketError::QuotaExceeded);
        }
        let new_storage = old_storage + user_storage;
        if new_storage > self.max_storage_size {
            return Err(MarketError::QuotaExceeded);
        }
        self.storage.insert(account_id, new_storage);
        proof {
            assert(self@ =~~= (MarketModel {
                storage: m0.storage.insert(
                    account_id@,
                    (m0.storage_of(account_id@) + user_storage) as StorageSize,
                ),
                ..m0
            }));
        }
        Ok(())
    }

    /// Reconciles a quota transfer: when the counterpart reported failure,
    /// the zeroed quota is re-credited locally (compensation), within the
    /// configured maximum; a success needs no further change.
    pub fn callback_after_transfer_storage(
        &mut self,
        account_id: String,
        user_storage: StorageSize,
        success: bool,
    ) -> (r: Result<(), MarketError>)
        requires
            old(self).wf(),
        ensures
            final(self).wf(),
            success ==> r is Ok && final(self)@ == old(self)@,
            !success ==> {
                let grown = old(self)@.storage_of(account_id@) + user_storage;
                if grown > old(self)@.max_storage_size {
                    r == Err::<(), MarketError>(MarketError::QuotaExceeded) && final(self)@ == old(
                        self,
                    )@
                } else {
                    r is Ok && final(self)@ == (MarketModel {
                        storage: old(self)@.storage.insert(account_id@, grown as StorageSize),
                        ..old(self)@
                    })
                }
            },
    {
        let ghost m0 = self@;
        if success {
            return Ok(());
        }
        let old_storage = self.get_user_storage(&account_id);
        if old_storage > u64::MAX - user_storage {
            return Err(MarketError::QuotaExceeded);
        }
        let new_storage = old_storage + user_storage;
        if new_storage > self.max_storage_size {
            return Err(MarketError::QuotaExceeded);
        }
        self.storage.insert(account_id, new_storage);
        proof {
            assert(self@ =~~= (MarketModel {
                storage: m0.storage.insert(
                    account_id@,
                    (m0.storage_of(account_id@) + user_storage) as StorageSize,
                ),
                ..m0
            }));
        }
        Ok(())
    }

    /// Adds a package to the catalog under the next index; operator only.
    pub fn add_storage_package(
        &mut self,
        caller: &String,
        storage_size: StorageSize,
        price: Balance,
    ) -> (r: Result<(), MarketError>)
        requires
            old(self).wf(),
        ensures
            final(self).wf(),
            caller@ != old(self)@.owner_id ==> r == Err::<(), MarketError>(MarketError::Unauthorized)
                && final(self)@ == old(self)@,
            caller@ == old(self)@.owner_id ==> {
                if old(self)@.storage_packages.dom().len() + 1 > u64::MAX {
                    r == Err::<(), MarketError>(MarketError::Overflow) && final(self)@ == old(
                        self,
                    )@
                } else {
                    r is Ok && final(self)@ == (MarketModel {
                        storage_packages: old(self)@.storage_packages.insert(
                            (old(self)@.storage_packages.dom().len() + 1) as StoragePackageIndex,
                            StoragePackage { storage_size, price },
                        ),
                        ..old(self)@
                    })
                }
            },
    {
        let ghost m0 = self@;
        self.assert_owner(caller)?;
        let count = self.storage_packages.len();
        let count64 = count as u64;
        if count64 == u64::MAX {
            return Err(MarketError::Overflow);
        }
        let next_index = count64 + 1;
        self.storage_packages.insert(next_index, StoragePackage { storage_size, price });
        proof {
            assert(self@ =~~= (MarketModel {
                storage_packages: m0.storage_packages.insert(
                    (m0.storage_packages.dom().len() + 1) as StoragePackageIndex,
                    StoragePackage { storage_size, price },
                ),
                ..m0
            }));
        }
        Ok(())
    }

    /// Removes the package at `index` from the catalog; operator only.
    /// Removing an absent index changes nothing.
    pub fn remove_storage_package(&mut self, caller: &String, index: StoragePackageIndex) -> (r:
        Result<(), MarketError>)
        requires
            old(self).wf(),
        ensures
            final(self).wf(),
            r is Ok <==> caller@ == old(self)@.owner_id,
            r is Ok ==> final(self)@ == (MarketModel {
                storage_packages: old(self)@.storage_packages.remove(index),
                ..old(self)@
            }),
            r is Err ==> final(self)@ == old(self)@ && r == Err::<(), MarketError>(
                MarketError::Unauthorized,
            ),
    {
        let ghost m0 = self@;
        self.assert_owner(caller)?;
        self.storage_packages.remove(index);
        proof {
            assert(self@ =~~= (MarketModel {
                storage_packages: m0.storage_packages.remove(index),
                ..m0
            }));
        }
        Ok(())
    }

    /// The catalog of purchasable packages: every listed pair is in the
    /// catalog, the indices are pairwise distinct, and every catalog index
    /// is listed.
    pub fn get_storage_packages(&self) -> (r: Vec<(StoragePackageIndex, StoragePackage)>)
        requires
            self.wf(),
        ensures
            forall|j: int|
                0 <= j < r@.len() ==> self@.storage_packages.contains_key(#[trigger] r@[j].0)
                    && self@.storage_packages[r@[j].0] == r@[j].1,
            forall|i: int, j: int| 0 <= i < j < r@.len() ==> r@[i].0 != r@[j].0,
            forall|k: StoragePackageIndex|
                self@.storage_packages.contains_key(k) ==> exists|j: int|
                    0 <= j < r@.len() && r@[j].0 == k,
    {
        self.storage_packages.entries()
    }
}

} // verus!
