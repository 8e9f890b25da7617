//! The engine's durable state: the owner, the running statistics and each
//! sender's batch count, with the operations that read and change them.

use crate::address::{null_bytes, Address};
use crate::amount::{modulus, saturating_add, u256_checked_add, u256_checked_mul, Amount};
use crate::batch::{
    native_rejection, outcomes_of, refund_of, settle_batch, success_count, token_rejection,
    validate_native, validate_token, Batch, Error, Report, Reply,
};
use vstd::prelude::*;

verus! {

/// How rejections reach the caller: as typed errors, or as a silent
/// return with nothing done.
#[derive(Clone, Copy, Debug, PartialEq, Eq, Structural)]
pub enum Policy {
    Strict,
    Silent,
}

/// `a + b`, held at 2^256 - 1 where it would pass it.
pub open spec fn sat_sum(a: nat, b: nat) -> nat {
    if a + b < modulus() {
        a + b
    } else {
        (modulus() - 1) as nat
    }
}

/// Each sender's batch count: `senders[i]` has `counts[i]`, and no sender
/// is listed twice.
struct SenderCounts {
    senders: Vec<Address>,
    counts: Vec<Amount>,
    count_map: Ghost<Map<Seq<u8>, nat>>,
}

/// The engine: its owner, its error policy, and the statistics of every
/// batch settled so far.
pub struct MultiSender {
    owner: Address,
    policy: Policy,
    total_transactions: Amount,
    total_recipients: Amount,
    user_counts: SenderCounts,
}

/// The count that `m` records for `a`; absent means none.
pub open spec fn count_in(m: Map<Seq<u8>, nat>, a: Seq<u8>) -> nat {
    if m.contains_key(a) {
        m[a]
    } else {
        0
    }
}

impl SenderCounts {
    spec fn wf(self) -> bool {
        &&& self.senders@.len() == self.counts@.len()
        &&& forall|i: int|
            0 <= i < self.senders@.len() ==> #[trigger] self.count_map@.contains_key(
                self.senders@[i]@,
            ) && self.count_map@[self.senders@[i]@] == self.counts@[i].value()
        &&& forall|k: Seq<u8>|
            #[trigger] self.count_map@.contains_key(k) ==> exists|i: int|
                0 <= i < self.senders@.len() && self.senders@[i]@ == k
        &&& forall|i: int, j: int|
            0 <= i < self.senders@.len() && 0 <= j < self.senders@.len() && i != j
                ==> self.senders@[i]@ != self.senders@[j]@
    }

    fn position_of(&self, user: Address) -> (r: Option<usize>)
        requires
            self.wf(),
        ensures
            match r {
                Some(i) => i < self.senders@.len() && self.senders@[i as int]@ == user@,
                None => !self.count_map@.contains_key(user@),
            },
    {
        let mut i: usize = 0;
        while i < self.senders.len()
            invariant
                self.wf(),
                0 <= i <= self.senders@.len(),
                forall|j: int| 0 <= j < i ==> self.senders@[j]@ != user@,
            decreases self.senders@.len() - i,
        {
            if self.senders[i].same_as(&user) {
                return Some(i);
            }
            i = i + 1;
        }
        Option::None
    }

    /// Counts one more batch for `user`.
    fn bump(&mut self, user: Address)
        requires
            old(self).wf(),
        ensures
            final(self).wf(),
            final(self).count_map@ == old(self).count_map@.insert(
                user@,
                sat_sum(count_in(old(self).count_map@, user@), 1),
            ),
    {
        let one = Amount::from_u64(1);
        match self.position_of(user) {
            Some(i) => {
                let c = saturating_add(self.counts[i], one);
                self.counts.set(i, c);
                proof {
                    self.count_map@ = self.count_map@.insert(user@, c.value());
                }
                assert forall|k: Seq<u8>| #[trigger] self.count_map@.contains_key(k) implies exists|
                    j: int,
                | 0 <= j < self.senders@.len() && self.senders@[j]@ == k by {
                    if k == user@ {
                        assert(self.senders@[i as int]@ == k);
                    } else {
                        assert(old(self).count_map@.contains_key(k));
                        let j = choose|j: int|
                            0 <= j < old(self).senders@.len() && old(self).senders@[j]@ == k;
                        assert(self.senders@[j]@ == k);
                    }
                }
            },
            None => {
                self.senders.push(user);
                self.counts.push(one);
                proof {
                    self.count_map@ = self.count_map@.insert(user@, 1);
                    let n = old(self).senders@.len();
                    assert(self.senders@[n as int] == user);
                    assert forall|j: int| 0 <= j < n implies self.senders@[j]@ != user@ by {
                        assert(old(self).count_map@.contains_key(old(self).senders@[j]@));
                    }
                }
                assert forall|k: Seq<u8>| #[trigger] self.count_map@.contains_key(k) implies exists|
                    j: int,
                | 0 <= j < self.senders@.len() && self.senders@[j]@ == k by {
                    if k == user@ {
                        assert(self.senders@[old(self).senders@.len() as int]@ == k);
                    } else {
                        assert(old(self).count_map@.contains_key(k));
                        let j = choose|j: int|
                            0 <= j < old(self).senders@.len() && old(self).senders@[j]@ == k;
                        assert(self.senders@[j]@ == k);
                    }
                }
            },
        }
    }
}

impl MultiSender {
    pub closed spec fn owner_spec(self) -> Address {
        self.owner
    }

    pub closed spec fn policy_spec(self) -> Policy {
        self.policy
    }

    /// The number of batches settled so far.
    pub closed spec fn batches(self) -> nat {
        self.total_transactions.value()
    }

    /// The number of successful transfers so far, over all batches.
    pub closed spec fn served(self) -> nat {
        self.total_recipients.value()
    }

    /// The number of batches settled for each sender; absent means none.
    pub closed spec fn batch_counts(self) -> Map<Seq<u8>, nat> {
        self.user_counts.count_map@
    }

    pub open spec fn batch_count(self, a: Seq<u8>) -> nat {
        count_in(self.batch_counts(), a)
    }

    pub closed spec fn wf(self) -> bool {
        self.user_counts.wf()
    }

    /// A fresh engine owned by `initial_owner`, with all statistics at zero.
    /// Under the strict policy a null owner is refused.
    pub fn constructor(initial_owner: Address, policy: Policy) -> (r: Result<MultiSender, Error>)
        ensures
            match r {
                Ok(s) => !(policy == Policy::Strict && initial_owner@ == null_bytes()) && s.wf()
                    && s.owner_spec() == initial_owner && s.policy_spec() == policy && s.batches()
                    == 0 && s.served() == 0 && s.batch_counts() == Map::<Seq<u8>, nat>::empty(),
                Err(e) => policy == Policy::Strict && initial_owner@ == null_bytes() && e
                    == Error::InvalidOwner(initial_owner),
            },
    {
        if policy == Policy::Strict && initial_owner.is_zero() {
            return Err(Error::InvalidOwner(initial_owner));
        }
        Ok(MultiSender {
            owner: initial_owner,
            policy,
            total_transactions: Amount::zero(),
            total_recipients: Amount::zero(),
            user_counts: SenderCounts {
                senders: Vec::new(),
                counts: Vec::new(),
                count_map: Ghost(Map::empty()),
            },
        })
    }

    /// The engine as a call reads it from storage: the owner, the policy,
    /// the two totals, and the batch count of the one sender involved.
    pub fn restore(
        owner: Address,
        policy: Policy,
        total_transactions: Amount,
        total_recipients: Amount,
        sender: Address,
        sender_count: Amount,
    ) -> (r: MultiSender)
        ensures
            r.wf(),
            r.owner_spec() == owner,
            r.policy_spec() == policy,
            r.batches() == total_transactions.value(),
            r.served() == total_recipients.value(),
            r.batch_counts() == Map::<Seq<u8>, nat>::empty().insert(sender@, sender_count.value()),
    {
        let mut senders: Vec<Address> = Vec::new();
        senders.push(sender);
        let mut counts: Vec<Amount> = Vec::new();
        counts.push(sender_count);
        let r = MultiSender {
            owner,
            policy,
            total_transactions,
            total_recipients,
            user_counts: SenderCounts {
                senders,
                counts,
                count_map: Ghost(Map::empty().insert(sender@, sender_count.value())),
            },
        };
        assert forall|k: Seq<u8>| #[trigger] r.user_counts.count_map@.contains_key(k) implies exists|
            j: int,
        | 0 <= j < r.user_counts.senders@.len() && r.user_counts.senders@[j]@ == k by {
            assert(r.user_counts.senders@[0]@ == k);
        }
        r
    }

    pub fn owner(&self) -> (r: Address)
        ensures
            r == self.owner_spec(),
    {
        self.owner
    }

    pub fn policy(&self) -> (r: Policy)
        ensures
            r == self.policy_spec(),
    {
        self.policy
    }

    /// The number of batches settled so far.
    pub fn total_transactions(&self) -> (r: Amount)
        ensures
            r.value() == self.batches(),
    {
        self.total_transactions
    }

    /// The number of recipients served so far.
    pub fn total_recipients(&self) -> (r: Amount)
        ensures
            r.value() == self.served(),
    {
        self.total_recipients
    }

    /// The number of batches that `user` has had settled.
    pub fn user_transaction_count(&self, user: Address) -> (r: Amount)
        requires
            self.wf(),
        ensures
            r.value() == self.batch_count(user@),
    {
        match self.user_counts.position_of(user) {
            Some(i) => self.user_counts.counts[i],
            None => Amount::zero(),
        }
    }
    /// Starts a native-value batch of `sender`, to which `msg_value` was
    /// attached. Nothing changes here: a rejected batch leaves no trace, and
    /// an accepted one takes effect in `settle`.
    pub fn batch_send_eth(
        &self,
        sender: Address,
        recipients: Vec<Address>,
        amounts: Vec<Amount>,
        msg_value: Amount,
    ) -> (r: Result<Batch, Error>)
        ensures
            match r {
                Ok(b) => native_rejection(recipients@.len(), amounts@, msg_value.value()) is None
                    && b.wf() && b.sender == sender && b.asset == crate::batch::Asset::Native
                    && b.recipients@ == recipients@ && b.amounts@ == amounts@ && b.supplied
                    == msg_value,
                Err(e) => native_rejection(recipients@.len(), amounts@, msg_value.value()) == Some(
                    e,
                ),
            },
    {
        validate_native(sender, recipients, amounts, msg_value)
    }

    /// Starts a batch of `sender` that distributes the token of the ledger at
    /// `token`. Nothing changes here.
    pub fn batch_send_token(
        &self,
        sender: Address,
        token: Address,
        recipients: Vec<Address>,
        amounts: Vec<Amount>,
    ) -> (r: Result<Batch, Error>)
        ensures
            match r {
                Ok(b) => token_rejection(token@, recipients@.len(), amounts@) is None && b.wf()
                    && b.sender == sender && b.asset == crate::batch::Asset::Token(token)
                    && b.recipients@ == recipients@ && b.amounts@ == amounts@ && b.supplied.value()
                    == 0,
                Err(e) => token_rejection(token@, recipients@.len(), amounts@) == Some(e),
            },
    {
        validate_token(sender, token, recipients, amounts)
    }

    /// Settles an accepted batch, given the reply to each recipient's
    /// transfer attempt, and counts it in the statistics once.
    pub fn settle(&mut self, batch: &Batch, replies: &Vec<Reply>) -> (r: Report)
        requires
            old(self).wf(),
            batch.wf(),
            replies@.len() == batch.recipients@.len(),
        ensures
            settled(*old(self), *batch, replies@, *final(self), r),
    {
        let report = settle_batch(batch, replies);
        self.total_transactions = saturating_add(self.total_transactions, Amount::from_u64(1));
        self.total_recipients = saturating_add(
            self.total_recipients,
            Amount::from_u64(report.successes as u64),
        );
        self.user_counts.bump(batch.sender);
        report
    }

    /// The owner's emergency drain: the whole held `balance` goes to the
    /// owner. Returns the transfer to make, if the balance is not zero.
    pub fn emergency_withdraw(&self, caller: Address, balance: Amount) -> (r: Result<
        Option<(Address, Amount)>,
        Error,
    >)
        ensures
            caller@ != self.owner_spec()@ ==> r == Err::<Option<(Address, Amount)>, Error>(
                Error::UnauthorizedAccount(caller),
            ),
            caller@ == self.owner_spec()@ && balance.value() == 0 ==> r == Ok::<
                Option<(Address, Amount)>,
                Error,
            >(None),
            caller@ == self.owner_spec()@ && balance.value() > 0 ==> r == Ok::<
                Option<(Address, Amount)>,
                Error,
            >(Some((self.owner_spec(), balance))),
    {
        if !caller.same_as(&self.owner) {
            return Err(Error::UnauthorizedAccount(caller));
        }
        if balance.is_zero() {
            Ok(None)
        } else {
            Ok(Some((self.owner, balance)))
        }
    }

    /// Hands ownership to `new_owner`; only the owner may, and not to the
    /// null account.
    pub fn transfer_ownership(&mut self, caller: Address, new_owner: Address) -> (r: Result<
        (),
        Error,
    >)
        requires
            old(self).wf(),
        ensures
            final(self).wf(),
            caller@ != old(self).owner_spec()@ ==> r == Err::<(), Error>(
                Error::UnauthorizedAccount(caller),
            ) && *final(self) == *old(self),
            caller@ == old(self).owner_spec()@ && new_owner@ == null_bytes() ==> r == Err::<
                (),
                Error,
            >(Error::InvalidOwner(new_owner)) && *final(self) == *old(self),
            caller@ == old(self).owner_spec()@ && new_owner@ != null_bytes() ==> r is Ok
                && final(self).owner_spec() == new_owner && same_but_owner(*old(self), *final(self)),
    {
        if !caller.same_as(&self.owner) {
            return Err(Error::UnauthorizedAccount(caller));
        }
        if new_owner.is_zero() {
            return Err(Error::InvalidOwner(new_owner));
        }
        self.owner = new_owner;
        Ok(())
    }

    /// Gives up ownership: the owner becomes the null account, and the
    /// owner-gated operations are closed for good.
    pub fn renounce_ownership(&mut self, caller: Address) -> (r: Result<(), Error>)
        requires
            old(self).wf(),
        ensures
            final(self).wf(),
            caller@ != old(self).owner_spec()@ ==> r == Err::<(), Error>(
                Error::UnauthorizedAccount(caller),
            ) && *final(self) == *old(self),
            caller@ == old(self).owner_spec()@ ==> r is Ok && final(self).owner_spec()@
                == null_bytes() && same_but_owner(*old(self), *final(self)),
    {
        if !caller.same_as(&self.owner) {
            return Err(Error::UnauthorizedAccount(caller));
        }
        self.owner = Address::zero();
        Ok(())
    }

    /// What a rejection looks like to the caller under this engine's policy:
    /// the error itself when strict, a plain return when silent.
    pub fn surface(&self, r: Result<(), Error>) -> (s: Result<(), Error>)
        ensures
            self.policy_spec() == Policy::Strict ==> s == r,
            self.policy_spec() == Policy::Silent ==> s is Ok,
    {
        match self.policy {
            Policy::Strict => r,
            Policy::Silent => Ok(()),
        }
    }

    /// Advisory cost of a native batch: 21000 plus 23000 per recipient, or
    /// `None` where that passes 2^256 - 1.
    pub fn estimate_batch_eth_gas(&self, recipient_count: Amount) -> (r: Option<Amount>)
        ensures
            r is Some == (21000 + 23000 * recipient_count.value() < modulus()),
            r is Some ==> r.unwrap().value() == 21000 + 23000 * recipient_count.value(),
    {
        linear_cost(21000, 23000, recipient_count)
    }

    /// Advisory cost of a token batch: 21000 plus 65000 per recipient, or
    /// `None` where that passes 2^256 - 1.
    pub fn estimate_batch_token_gas(&self, recipient_count: Amount) -> (r: Option<Amount>)
        ensures
            r is Some == (21000 + 65000 * recipient_count.value() < modulus()),
            r is Some ==> r.unwrap().value() == 21000 + 65000 * recipient_count.value(),
    {
        linear_cost(21000, 65000, recipient_count)
    }
}

/// `base + per_item * count`, or `None` where it does not fit.
fn linear_cost(base: u64, per_item: u64, count: Amount) -> (r: Option<Amount>)
    ensures
        r is Some == (base + per_item * count.value() < modulus()),
        r is Some ==> r.unwrap().value() == base + per_item * count.value(),
{
    match u256_checked_mul(Amount::from_u64(per_item), count) {
        Some(p) => u256_checked_add(Amount::from_u64(base), p),
        None => {
            proof {
                crate::amount::lemma_value_bound(count);
            }
            None
        },
    }
}

/// Two states that differ at most in their owner.
pub open spec fn same_but_owner(a: MultiSender, b: MultiSender) -> bool {
    &&& a.policy_spec() == b.policy_spec()
    &&& a.batches() == b.batches()
    &&& a.served() == b.served()
    &&& a.batch_counts() == b.batch_counts()
}

/// What `settle` does: the report on the batch, and the statistics
/// counting it once.
pub open spec fn settled(
    before: MultiSender,
    batch: Batch,
    replies: Seq<Reply>,
    after: MultiSender,
    r: Report,
) -> bool {
    &&& after.wf()
    &&& r.sender == batch.sender
    &&& r.asset == batch.asset
    &&& r.total == batch.total
    &&& r.outcomes@ == outcomes_of(batch, replies)
    &&& r.successes == success_count(r.outcomes@)
    &&& r.delivered.value() == crate::batch::delivered_of(r.outcomes@)
    &&& r.delivered.value() <= r.total.value()
    &&& r.refund.value() == refund_of(batch)
    &&& after.batches() == sat_sum(before.batches(), 1)
    &&& after.served() == sat_sum(before.served(), r.successes as nat)
    &&& after.batch_counts() == before.batch_counts().insert(
        batch.sender@,
        sat_sum(before.batch_count(batch.sender@), 1),
    )
    &&& after.owner_spec() == before.owner_spec()
    &&& after.policy_spec() == before.policy_spec()
}

} // verus!
