use vstd::prelude::*;
use crate::tx::{TxIntent, spec_funding_intent, funding_intent};

verus! {

/// The even split of the funder's balance: one share for each of the `n`
/// ephemeral accounts plus one reserved for the funder's own residual, with
/// any floor-division remainder never distributed.
pub open spec fn spec_share(balance: u128, n: u8) -> u128 {
    (balance as int / (n as int + 1)) as u128
}

pub fn funding_share(balance: u128, n: u8) -> (s: u128)
    ensures
        s == spec_share(balance, n),
{
    balance / (n as u128 + 1)
}

/// One run of the funding coordinator: hands out the pipelined funding
/// transfers in account order, advancing the funder's local sequence counter
/// by exactly one per transfer, strictly before that transfer is submitted.
pub struct FundingRun {
    pub share: u128,
    pub chain_id: u64,
    pub next_nonce: u64,
    pub issued: u8,
    pub total: u8,
}

impl FundingRun {
    /// Transfers issued so far never exceed the pool size, and the counters
    /// still to be assigned fit the counter's width.
    pub open spec fn wf(self) -> bool {
        self.issued <= self.total
            && self.next_nonce + self.total - self.issued <= u64::MAX
    }

    /// Starts the funding phase from the funder's freshly fetched balance and
    /// sequence counter, for a pool of `n` ephemeral accounts.
    pub fn new(balance: u128, start_nonce: u64, n: u8, chain_id: u64) -> (r: FundingRun)
        requires
            start_nonce + n <= u64::MAX,
        ensures
            r.wf(),
            r.share == spec_share(balance, n),
            r.chain_id == chain_id,
            r.next_nonce == start_nonce,
            r.issued == 0,
            r.total == n,
    {
        FundingRun {
            share: funding_share(balance, n),
            chain_id,
            next_nonce: start_nonce,
            issued: 0,
            total: n,
        }
    }

    /// Builds the next pipelined transfer, or reports the phase done. The
    /// local counter steps by exactly one per transfer handed out: no gaps,
    /// no reuse.
    pub fn next_transfer(&mut self) -> (t: Option<TxIntent>)
        requires
            old(self).wf(),
        ensures
            final(self).wf(),
            final(self).share == old(self).share,
            final(self).chain_id == old(self).chain_id,
            final(self).total == old(self).total,
            old(self).issued < old(self).total ==> {
                &&& t == Some(spec_funding_intent(
                    old(self).issued,
                    old(self).next_nonce,
                    old(self).share,
                    old(self).chain_id,
                ))
                &&& final(self).issued == old(self).issued + 1
                &&& final(self).next_nonce == old(self).next_nonce + 1
            },
            old(self).issued == old(self).total ==> {
                &&& t == None::<TxIntent>
                &&& *final(self) == *old(self)
            },
    {
        if self.issued < self.total {
            let t = funding_intent(self.issued, self.next_nonce, self.share, self.chain_id);
            self.issued = self.issued + 1;
            self.next_nonce = self.next_nonce + 1;
            Some(t)
        } else {
            None
        }
    }

    /// Issues every remaining transfer in account order. Afterwards the
    /// funder's local counter has advanced by exactly the number of transfers
    /// issued.
    pub fn issue_all(&mut self) -> (v: Vec<TxIntent>)
        requires
            old(self).wf(),
        ensures
            final(self).wf(),
            final(self).share == old(self).share,
            final(self).chain_id == old(self).chain_id,
            final(self).total == old(self).total,
            final(self).issued == old(self).total,
            final(self).next_nonce == old(self).next_nonce + old(self).total - old(self).issued,
            v@.len() == old(self).total - old(self).issued,
            forall|i: int| 0 <= i < v@.len() ==> v@[i] == spec_funding_intent(
                (old(self).issued + i) as u8,
                (old(self).next_nonce + i) as u64,
                old(self).share,
                old(self).chain_id,
            ),
    {
        let ghost init = *self;
        let mut v: Vec<TxIntent> = Vec::new();
        while self.issued < self.total
            invariant
                self.wf(),
                self.share == init.share,
                self.chain_id == init.chain_id,
                self.total == init.total,
                init.issued <= self.issued,
                self.issued - init.issued == v@.len(),
                self.next_nonce - init.next_nonce == v@.len(),
                forall|i: int| 0 <= i < v@.len() ==> v@[i] == spec_funding_intent(
                    (init.issued + i) as u8,
                    (init.next_nonce + i) as u64,
                    init.share,
                    init.chain_id,
                ),
            decreases self.total - self.issued,
        {
            let t = self.next_transfer();
            match t {
                Some(intent) => v.push(intent),
                None => {}
            }
        }
        v
    }
}

/// All funding transfers for one startup: the transfer at position `i` moves
/// the even share to account `i` under the funder's counter `start_nonce + i`.
pub open spec fn spec_funding_intents(balance: u128, start_nonce: u64, n: u8, chain_id: u64) -> Seq<TxIntent> {
    Seq::new(n as nat, |i: int| spec_funding_intent(
        i as u8,
        (start_nonce + i) as u64,
        spec_share(balance, n),
        chain_id,
    ))
}

/// Builds the full pipelined transfer list for the funding phase in one call.
pub fn funding_intents(balance: u128, start_nonce: u64, n: u8, chain_id: u64) -> (v: Vec<TxIntent>)
    requires
        start_nonce + n <= u64::MAX,
    ensures
        v@ == spec_funding_intents(balance, start_nonce, n, chain_id),
{
    let mut run = FundingRun::new(balance, start_nonce, n, chain_id);
    let v = run.issue_all();
    proof {
        assert(v@ =~= spec_funding_intents(balance, start_nonce, n, chain_id));
    }
    v
}

/// Whether every funding transfer was observed as accepted on the ledger.
pub open spec fn spec_all_confirmed(s: Seq<bool>) -> bool {
    forall|i: int| 0 <= i < s.len() ==> s[i]
}

/// Fan-in over the per-transfer confirmation results: the funding phase
/// succeeds exactly when every transfer reached acceptance.
pub fn all_confirmed(results: &Vec<bool>) -> (r: bool)
    ensures
        r == spec_all_confirmed(results@),
{
    let mut k: usize = 0;
    while k < results.len()
        invariant
            k <= results@.len(),
            forall|i: int| 0 <= i < k ==> results@[i],
        decreases results@.len() - k,
    {
        if !results[k] {
            assert(!results@[k as int]);
            return false;
        }
        k = k + 1;
    }
    true
}

/// Law: funding splits evenly. With funder balance `balance` and `n`
/// ephemeral accounts, every account's transfer carries exactly
/// `balance / (n + 1)` under integer division, and transfer `i` uses the
/// funder's counter `start_nonce + i` — so after the phase the local counter
/// stands at `start_nonce + n`.
pub proof fn lemma_funding_even_split(balance: u128, start_nonce: u64, n: u8, chain_id: u64)
    requires
        start_nonce + n <= u64::MAX,
    ensures
        spec_funding_intents(balance, start_nonce, n, chain_id).len() == n,
        forall|i: int| 0 <= i < n ==> spec_funding_intents(balance, start_nonce, n, chain_id)[i].value
            == balance as int / (n as int + 1),
        forall|i: int| 0 <= i < n ==> spec_funding_intents(balance, start_nonce, n, chain_id)[i].nonce
            == start_nonce + i,
{
}

} // verus!
