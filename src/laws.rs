//! Properties that hold of every batch and every call.

use crate::address::null_bytes;
use crate::amount::{modulus, Amount};
use crate::batch::{
    amounts_rejection, has_zero, native_rejection, outcomes_of, success_count, sum_of,
    token_rejection, Asset, Batch, Error, Outcome, Reason, Reply, Report,
};
use crate::state::{settled, MultiSender};
use vstd::prelude::*;

verus! {

/// A settled batch never delivers more than its declared total.
pub proof fn law_delivered_within_total(
    before: MultiSender,
    batch: Batch,
    replies: Seq<Reply>,
    after: MultiSender,
    r: Report,
)
    requires
        batch.wf(),
        settled(before, batch, replies, after, r),
    ensures
        crate::batch::delivered_of(outcomes_of(batch, replies)) <= sum_of(batch.amounts@),
{
}

/// A sequence of outcomes holds no more successes than outcomes.
pub proof fn lemma_success_count_bound(s: Seq<Outcome>)
    ensures
        success_count(s) <= s.len(),
    decreases s.len(),
{
    if s.len() > 0 {
        lemma_success_count_bound(s.drop_last());
    }
}

/// A settled batch has at most one success per recipient, and the number of
/// recipients served grows by exactly its successes (while the counter stays
/// below 2^256).
pub proof fn law_successes_counted(
    before: MultiSender,
    batch: Batch,
    replies: Seq<Reply>,
    after: MultiSender,
    r: Report,
)
    requires
        batch.wf(),
        replies.len() == batch.recipients@.len(),
        settled(before, batch, replies, after, r),
        before.served() + r.successes < modulus(),
    ensures
        r.successes <= batch.recipients@.len(),
        after.served() == before.served() + r.successes,
{
    lemma_success_count_bound(r.outcomes@);
}

/// Each settled batch counts as exactly one batch, overall and for its
/// sender (while the counters stay below 2^256). A rejected batch never
/// reaches `settle`, and starting one changes nothing.
pub proof fn law_one_batch_per_call(
    before: MultiSender,
    batch: Batch,
    replies: Seq<Reply>,
    after: MultiSender,
    r: Report,
)
    requires
        settled(before, batch, replies, after, r),
        before.batches() + 1 < modulus(),
        before.batch_count(batch.sender@) + 1 < modulus(),
    ensures
        after.batches() == before.batches() + 1,
        after.batch_count(batch.sender@) == before.batch_count(batch.sender@) + 1,
{
}

/// In native mode the declared total is the sum of the amounts, and the
/// refund is the supplied value minus that total, whatever the replies.
pub proof fn law_native_refund(
    before: MultiSender,
    batch: Batch,
    replies: Seq<Reply>,
    after: MultiSender,
    r: Report,
)
    requires
        batch.wf(),
        batch.asset == Asset::Native,
        settled(before, batch, replies, after, r),
    ensures
        r.total.value() == sum_of(batch.amounts@),
        r.refund.value() == batch.supplied.value() - sum_of(batch.amounts@),
{
}

/// A native batch whose attached value falls short of the sum of its
/// amounts is rejected.
pub proof fn law_short_value_rejected(n: nat, amounts: Seq<Amount>, supplied: nat)
    requires
        supplied < sum_of(amounts),
    ensures
        native_rejection(n, amounts, supplied) is Some,
        amounts_rejection(n, amounts) is None ==> native_rejection(n, amounts, supplied) == Some(
            Error::InsufficientBalance,
        ),
{
}

/// A null recipient always fails, as an invalid recipient, in both modes.
pub proof fn law_null_recipient_fails(batch: Batch, replies: Seq<Reply>, i: int)
    requires
        batch.wf(),
        replies.len() == batch.recipients@.len(),
        0 <= i < batch.recipients@.len(),
        batch.recipients@[i]@ == null_bytes(),
    ensures
        outcomes_of(batch, replies)[i] == (Outcome::Failure {
            recipient: batch.recipients@[i],
            amount: batch.amounts@[i],
            reason: Reason::InvalidRecipient,
        }),
        !(outcomes_of(batch, replies)[i] is Success),
{
}

/// A zero amount anywhere rejects the call, in both modes.
pub proof fn law_zero_amount_rejects(token: Seq<u8>, n: nat, amounts: Seq<Amount>, supplied: nat)
    requires
        has_zero(amounts),
    ensures
        native_rejection(n, amounts, supplied) is Some,
        token_rejection(token, n, amounts) is Some,
{
}

/// Sequences of different lengths are rejected as a mismatch, in both modes.
pub proof fn law_length_mismatch_rejects(
    token: Seq<u8>,
    n: nat,
    amounts: Seq<Amount>,
    supplied: nat,
)
    requires
        n != amounts.len(),
    ensures
        native_rejection(n, amounts, supplied) == Some(Error::ArrayLengthMismatch),
        token_rejection(token, n, amounts) == Some(Error::ArrayLengthMismatch),
{
}

} // verus!
