//! Read-only token queries: ownership plus pricing, and the data a
//! prospective buyer needs before submitting a purchase.
use vstd::prelude::*;
use vstd::string::StringExecFns;

use crate::state::Market;
use crate::token::Balance;
use crate::token::StorageSize;
use crate::token::Token;
use crate::token::TokenGeneration;
use crate::token::colon_idx;
use crate::token::contains_colon;

verus! {

impl Market {
    /// The media link of a token's metadata: its content-derived
    /// identifier under the `ipfs` scheme.
    pub fn get_token_metadata(&self, token_id: &String) -> (r: String)
        ensures
            r@ == "ipfs://"@ + token_id@,
    {
        let mut media = String::new();
        media.append("ipfs://");
        media.append(token_id.as_str());
        proof {
            assert(media@ =~= "ipfs://"@ + token_id@);
        }
        media
    }

    /// A token with its owner and, for a base token (one without a
    /// generation prefix), its pricing record.
    pub fn get_token(&self, token_id: String) -> (r: (
        Option<Token>,
        Option<(TokenGeneration, Balance)>,
    ))
        requires
            self.wf(),
        ensures
            match r.0 {
                Some(t) => self@.registry.contains_key(token_id@) && t.token_id@ == token_id@
                    && t.owner_id@ == self@.registry[token_id@],
                None => !self@.registry.contains_key(token_id@),
            },
            r.1 == if self@.registry.contains_key(token_id@) && colon_idx(token_id@)
                == token_id@.len() {
                Some(
                    (
                        self@.token_data_of(token_id@).generation,
                        self@.token_data_of(token_id@).price,
                    ),
                )
            } else {
                None::<(TokenGeneration, Balance)>
            },
    {
        let owner: String = match self.registry.get(&token_id) {
            Some(o) => o.clone(),
            None => {
                return (None, None);
            },
        };
        if contains_colon(&token_id) {
            // An archived copy: ownership only, no pricing record of its
            // own.
            let token = Token { token_id, owner_id: owner };
            return (Some(token), None);
        }
        let data = self.get_token_data(&token_id);
        let token = Token { token_id, owner_id: owner };
        (Some(token), Some((data.generation, data.price)))
    }

    /// Everything a buyer needs before a resale: the token, the payment
    /// the next sale requires, and the seller's archive situation (item
    /// count, total registry holdings, opt-in flag). Nothing for an
    /// archived copy, an unknown token, or a price past the balance width.
    pub fn get_token_for_sale(&self, token_id: String) -> (r: Option<
        (Token, Balance, StorageSize, StorageSize, bool),
    >)
        requires
            self.wf(),
        ensures
            ({
                let d = self@.token_data_of(token_id@);
                let required = d.price + self@.mint_price_increase_fee.mul_spec(d.price);
                match r {
                    Some(t) => {
                        &&& colon_idx(token_id@) == token_id@.len()
                        &&& self@.registry.contains_key(token_id@)
                        &&& required <= u128::MAX
                        &&& t.0.token_id@ == token_id@
                        &&& t.0.owner_id@ == self@.registry[token_id@]
                        &&& t.1 == required
                        &&& t.2 == self@.collection_count(self@.registry[token_id@])
                        &&& t.3 == self@.supply_of(self@.registry[token_id@])
                        &&& t.4 == self@.stores_tokens(self@.registry[token_id@])
                    },
                    None => colon_idx(token_id@) < token_id@.len() || !self@.registry.contains_key(
                        token_id@,
                    ) || required > u128::MAX,
                }
            }),
    {
        if contains_colon(&token_id) {
            return None;
        }
        let owner: String = match self.registry.get(&token_id) {
            Some(o) => o.clone(),
            None => {
                return None;
            },
        };
        let old_price = self.get_token_price(&token_id);
        let price_increase = self.mint_price_increase_fee.multiply(old_price);
        if old_price > u128::MAX - price_increase {
            return None;
        }
        let seller_collection_items = self.get_user_collection_items(&owner);
        let seller_total_items = self.internal_total_supply_by_user(&owner);
        let seller_is_store_tokens = self.get_store_user_tokens(&owner);
        let token = Token { token_id, owner_id: owner };
        Some(
            (
                token,
                old_price + price_increase,
                seller_collection_items,
                seller_total_items,
                seller_is_store_tokens,
            ),
        )
    }
}

} // verus!
