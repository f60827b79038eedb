//! User-submitted mint requests, queued under increasing identifiers and
//! read back page by page.
use vstd::prelude::*;

use crate::errors::MarketError;
use crate::state::Market;
use crate::state::MarketModel;
use crate::token::Timestamp;
use crate::token::TokenStatus;
use crate::token::UserToken;

verus! {

impl Market {
    /// Queues a request to mint `token_id` for `account_id`, pending
    /// review, under the next request identifier.
    pub fn mint_user_token(&mut self, token_id: String, account_id: String, now: Timestamp) -> (r:
        Result<u64, MarketError>)
        requires
            old(self).wf(),
        ensures
            final(self).wf(),
            r is Ok <==> old(self)@.last_user_token_request_id < u64::MAX,
            r matches Ok(id) ==> id == old(self)@.last_user_token_request_id + 1 && final(self)@
                == (MarketModel {
                user_token_requests: old(self)@.user_token_requests.push(
                    (
                        id,
                        UserToken {
                            token_id,
                            account_id,
                            status: TokenStatus::PENDING,
                            created_at: now,
                        },
                    ),
                ),
                last_user_token_request_id: id,
                ..old(self)@
            }),
            r is Err ==> final(self)@ == old(self)@ && r == Err::<u64, MarketError>(
                MarketError::Overflow,
            ),
    {
        let ghost m0 = self@;
        if self.last_user_token_request_id == u64::MAX {
            return Err(MarketError::Overflow);
        }
        let id = self.last_user_token_request_id + 1;
        self.last_user_token_request_id = id;
        let token = UserToken { token_id, account_id, status: TokenStatus::PENDING, created_at: now };
        self.user_token_requests.push((id, token));
        Ok(id)
    }

    /// A page of the queued mint requests: `limit` entries (all, when
    /// absent) starting at position `from_index` (the beginning, when
    /// absent).
    pub fn get_user_mint_requests(&self, from_index: Option<u64>, limit: Option<u64>) -> (r: Vec<
        (u64, UserToken),
    >)
        ensures
            ({
                let s = self@.user_token_requests;
                let from: int = match from_index {
                    Some(f) => f as int,
                    None => 0,
                };
                let lim: int = match limit {
                    Some(l) => l as int,
                    None => s.len() as int,
                };
                let start: int = if from > s.len() {
                    s.len() as int
                } else {
                    from
                };
                let cnt: int = if lim < s.len() - start {
                    lim
                } else {
                    s.len() - start
                };
                &&& r@.len() == cnt
                &&& forall|i: int| 0 <= i < cnt ==> r@[i] == s[start + i]
            }),
    {
        let n = self.user_token_requests.len();
        let from: u64 = match from_index {
            Some(f) => f,
            None => 0,
        };
        let mut out: Vec<(u64, UserToken)> = Vec::new();
        if from >= n as u64 {
            return out;
        }
        let start = from as usize;
        let mut i: usize = start;
        let mut taken: u64 = 0;
        let lim: u64 = match limit {
            Some(l) => l,
            None => {
                let all = (n - start) as u64;
                all
            },
        };
        while i < n && taken < lim
            invariant
                n == self.user_token_requests@.len(),
                start <= i <= n,
                taken == i - start,
                taken <= lim,
                out@.len() == taken,
                forall|j: int|
                    0 <= j < out@.len() ==> out@[j] == self.user_token_requests@[start + j],
            decreases n - i,
        {
            let entry = &self.user_token_requests[i];
            out.push((entry.0, entry.1.clone()));
            i = i + 1;
            taken = taken + 1;
        }
        out
    }
}

} // verus!
