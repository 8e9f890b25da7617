//! Batches: validation of the input, and classification of each
//! recipient's transfer result.

use crate::address::{null_bytes, Address};
use crate::amount::{modulus, u256_checked_add, u256_checked_sub, Amount};
use stylus_sdk::alloy_sol_types::SolValue;
use vstd::prelude::*;

verus! {

/// Why a call is rejected, or why an owner-gated operation is refused.
#[derive(Clone, Copy, Debug, PartialEq, Eq)]
pub enum Error {
    UnauthorizedAccount(Address),
    InvalidOwner(Address),
    ArrayLengthMismatch,
    InsufficientBalance,
    TransferFailed,
    InvalidRecipient,
    InvalidAmount,
    ArithmeticOverflow,
}

/// What a batch distributes: native value, or a token held by an external
/// ledger.
#[derive(Clone, Copy, Debug, PartialEq, Eq)]
pub enum Asset {
    Native,
    Token(Address),
}

/// Why one recipient did not receive its amount.
#[derive(Clone, Copy, Debug, PartialEq, Eq)]
pub enum Reason {
    InvalidRecipient,
    TransferFailed,
    CallFailed,
    DecodeFailed,
    NonTrueReturn,
}

/// The result for one recipient of a batch.
#[derive(Clone, Copy, Debug, PartialEq, Eq)]
pub enum Outcome {
    Success { recipient: Address, amount: Amount },
    Failure { recipient: Address, amount: Amount, reason: Reason },
}

/// What the outside world answered to one transfer attempt.
///
/// A native transfer answers `Transferred` or `NotTransferred`; a call to
/// the token ledger answers with the bytes it returned, or `CallFailed`.
/// The reply given for a null recipient is ignored: no transfer is made.
#[derive(Clone, Debug, PartialEq, Eq)]
pub enum Reply {
    Transferred,
    NotTransferred,
    Returned(Vec<u8>),
    CallFailed,
}

/// A validated batch, ready for its transfers.
#[derive(Clone, Debug, PartialEq, Eq)]
pub struct Batch {
    pub sender: Address,
    pub asset: Asset,
    pub recipients: Vec<Address>,
    pub amounts: Vec<Amount>,
    /// The declared total: the sum of all amounts.
    pub total: Amount,
    /// The value attached to the call (zero for token batches).
    pub supplied: Amount,
}

/// The summary of a settled batch.
#[derive(Clone, Debug, PartialEq, Eq)]
pub struct Report {
    pub sender: Address,
    pub asset: Asset,
    /// The declared total.
    pub total: Amount,
    /// One outcome per recipient, in input order.
    pub outcomes: Vec<Outcome>,
    pub successes: usize,
    /// The sum of the amounts that reached their recipient.
    pub delivered: Amount,
    /// What goes back to the sender: the supplied value minus the declared
    /// total in native mode, zero in token mode.
    pub refund: Amount,
}

/// The sum of the amounts.
pub open spec fn sum_of(s: Seq<Amount>) -> nat
    decreases s.len(),
{
    if s.len() == 0 {
        0
    } else {
        sum_of(s.drop_last()) + s.last().value()
    }
}

pub open spec fn has_zero(s: Seq<Amount>) -> bool {
    exists|i: int| 0 <= i < s.len() && s[i].value() == 0
}

/// The rejection shared by both modes, on the recipient count and the
/// amounts.
pub open spec fn amounts_rejection(n: nat, amounts: Seq<Amount>) -> Option<Error> {
    if n != amounts.len() {
        Some(Error::ArrayLengthMismatch)
    } else if n == 0 {
        Some(Error::InvalidRecipient)
    } else if has_zero(amounts) {
        Some(Error::InvalidAmount)
    } else if sum_of(amounts) >= modulus() {
        Some(Error::ArithmeticOverflow)
    } else {
        None
    }
}

/// Why a native batch is rejected, if it is.
pub open spec fn native_rejection(n: nat, amounts: Seq<Amount>, supplied: nat) -> Option<Error> {
    match amounts_rejection(n, amounts) {
        Some(e) => Some(e),
        None => if supplied < sum_of(amounts) {
            Some(Error::InsufficientBalance)
        } else {
            None
        },
    }
}

/// Why a token batch is rejected, if it is.
pub open spec fn token_rejection(token: Seq<u8>, n: nat, amounts: Seq<Amount>) -> Option<Error> {
    if n != amounts.len() {
        Some(Error::ArrayLengthMismatch)
    } else if n == 0 || token == null_bytes() {
        Some(Error::InvalidRecipient)
    } else {
        amounts_rejection(n, amounts)
    }
}

/// The flag that the ABI decoding of `bool` reads from `data`, if `data`
/// is a valid encoding of one.
pub uninterp spec fn abi_bool_of(data: Seq<u8>) -> Option<bool>;

/// The outcome of a ledger call for a non-null recipient, from the decoded
/// return value.
pub open spec fn call_outcome(recipient: Address, amount: Amount, decoded: Option<bool>) -> Outcome {
    match decoded {
        Some(true) => Outcome::Success { recipient, amount },
        Some(false) => Outcome::Failure { recipient, amount, reason: Reason::NonTrueReturn },
        None => Outcome::Failure { recipient, amount, reason: Reason::DecodeFailed },
    }
}

/// The outcome for one recipient.
pub open spec fn outcome_of(asset: Asset, recipient: Address, amount: Amount, reply: Reply) -> Outcome {
    if recipient@ == null_bytes() {
        Outcome::Failure { recipient, amount, reason: Reason::InvalidRecipient }
    } else {
        match asset {
            Asset::Native => match reply {
                Reply::Transferred => Outcome::Success { recipient, amount },
                _ => Outcome::Failure { recipient, amount, reason: Reason::TransferFailed },
            },
            Asset::Token(_) => match reply {
                Reply::Returned(data) => call_outcome(recipient, amount, abi_bool_of(data@)),
                _ => Outcome::Failure { recipient, amount, reason: Reason::CallFailed },
            },
        }
    }
}

/// The outcomes of a batch, one per recipient, for the given replies.
pub open spec fn outcomes_of(b: Batch, replies: Seq<Reply>) -> Seq<Outcome> {
    Seq::new(
        b.recipients@.len(),
        |i: int| outcome_of(b.asset, b.recipients@[i], b.amounts@[i], replies[i]),
    )
}

pub open spec fn is_success(o: Outcome) -> bool {
    o is Success
}

pub open spec fn success_count(s: Seq<Outcome>) -> nat
    decreases s.len(),
{
    if s.len() == 0 {
        0
    } else {
        success_count(s.drop_last()) + if is_success(s.last()) {
            1nat
        } else {
            0nat
        }
    }
}

/// The sum of the amounts of the successful outcomes.
pub open spec fn delivered_of(s: Seq<Outcome>) -> nat
    decreases s.len(),
{
    if s.len() == 0 {
        0
    } else {
        delivered_of(s.drop_last()) + match s.last() {
            Outcome::Success { amount, .. } => amount.value(),
            Outcome::Failure { .. } => 0nat,
        }
    }
}

impl Batch {
    /// A batch that validation accepted.
    pub open spec fn wf(self) -> bool {
        &&& self.recipients@.len() == self.amounts@.len()
        &&& self.recipients@.len() > 0
        &&& !has_zero(self.amounts@)
        &&& self.total.value() == sum_of(self.amounts@)
        &&& match self.asset {
            Asset::Native => self.supplied.value() >= self.total.value(),
            Asset::Token(t) => t@ != null_bytes() && self.supplied.value() == 0,
        }
    }

    pub fn len(&self) -> (r: usize)
        ensures
            r == self.recipients@.len(),
    {
        self.recipients.len()
    }

    /// Whether recipient `i` gets a transfer attempt: every recipient but
    /// the null account does.
    pub fn needs_transfer(&self, i: usize) -> (r: bool)
        requires
            i < self.recipients@.len(),
        ensures
            r == (self.recipients@[i as int]@ != null_bytes()),
    {
        !self.recipients[i].is_zero()
    }
}

/// Relies on alloy-sol-types' `abi_decode` for `bool`, in validating mode:
/// the decoded flag, or `None` where `data` does not hold one.
#[verifier::external_body]
fn decode_bool(data: &Vec<u8>) -> (r: Option<bool>)
    ensures
        r == abi_bool_of(data@),
{
    <bool as SolValue>::abi_decode(data, true).ok()
}

/// The outcome of a ledger call for a non-null recipient, from the flag
/// that the call returned (`None`: not decodable).
pub fn decoded_outcome(recipient: Address, amount: Amount, decoded: Option<bool>) -> (r: Outcome)
    ensures
        r == call_outcome(recipient, amount, decoded),
{
    match decoded {
        Some(true) => Outcome::Success { recipient, amount },
        Some(false) => Outcome::Failure { recipient, amount, reason: Reason::NonTrueReturn },
        None => Outcome::Failure { recipient, amount, reason: Reason::DecodeFailed },
    }
}

/// The outcome for one recipient, given the reply to its transfer attempt.
pub fn outcome_for(asset: Asset, recipient: Address, amount: Amount, reply: &Reply) -> (r: Outcome)
    ensures
        r == outcome_of(asset, recipient, amount, *reply),
{
    if recipient.is_zero() {
        return Outcome::Failure { recipient, amount, reason: Reason::InvalidRecipient };
    }
    match asset {
        Asset::Native => match reply {
            Reply::Transferred => Outcome::Success { recipient, amount },
            _ => Outcome::Failure { recipient, amount, reason: Reason::TransferFailed },
        },
        Asset::Token(_) => match reply {
            Reply::Returned(data) => decoded_outcome(recipient, amount, decode_bool(data)),
            _ => Outcome::Failure { recipient, amount, reason: Reason::CallFailed },
        },
    }
}

/// A prefix of a sequence of amounts sums to no more than the whole.
pub proof fn lemma_sum_prefix(s: Seq<Amount>, i: int)
    requires
        0 <= i <= s.len(),
    ensures
        sum_of(s.take(i)) <= sum_of(s),
    decreases s.len(),
{
    if i < s.len() {
        assert(s.take(i) =~= s.drop_last().take(i));
        lemma_sum_prefix(s.drop_last(), i);
    } else {
        assert(s.take(i) =~= s);
    }
}

proof fn lemma_sum_step(s: Seq<Amount>, i: int)
    requires
        0 <= i < s.len(),
    ensures
        sum_of(s.take(i + 1)) == sum_of(s.take(i)) + s[i].value(),
{
    assert(s.take(i + 1).drop_last() =~= s.take(i));
}

/// The declared total of the amounts, after the checks on the amounts
/// alone: no zero amount, and a sum that fits.
fn total_of(amounts: &Vec<Amount>) -> (r: Result<Amount, Error>)
    ensures
        match r {
            Ok(t) => !has_zero(amounts@) && sum_of(amounts@) < modulus() && t.value() == sum_of(
                amounts@,
            ),
            Err(e) => if has_zero(amounts@) {
                e == Error::InvalidAmount
            } else {
                sum_of(amounts@) >= modulus() && e == Error::ArithmeticOverflow
            },
        },
{
    let n = amounts.len();
    let mut i: usize = 0;
    while i < n
        invariant
            n == amounts@.len(),
            0 <= i <= n,
            forall|j: int| 0 <= j < i ==> amounts@[j].value() != 0,
        decreases n - i,
    {
        if amounts[i].is_zero() {
            return Err(Error::InvalidAmount);
        }
        i = i + 1;
    }
    let mut total = Amount::zero();
    let mut k: usize = 0;
    assert(amounts@.take(0) =~= Seq::<Amount>::empty());
    while k < n
        invariant
            n == amounts@.len(),
            0 <= k <= n,
            !has_zero(amounts@),
            total.value() == sum_of(amounts@.take(k as int)),
        decreases n - k,
    {
        proof {
            lemma_sum_step(amounts@, k as int);
        }
        match u256_checked_add(total, amounts[k]) {
            Some(t) => total = t,
            None => {
                proof {
                    lemma_sum_prefix(amounts@, k + 1);
                }
                return Err(Error::ArithmeticOverflow);
            },
        }
        k = k + 1;
    }
    assert(amounts@.take(n as int) =~= amounts@);
    Ok(total)
}

/// Validates a native-value batch of `sender`, to which `supplied` was
/// attached.
pub fn validate_native(
    sender: Address,
    recipients: Vec<Address>,
    amounts: Vec<Amount>,
    supplied: Amount,
) -> (r: Result<Batch, Error>)
    ensures
        match r {
            Ok(b) => native_rejection(recipients@.len(), amounts@, supplied.value()) is None
                && b.wf() && b.sender == sender && b.asset == Asset::Native && b.recipients@
                == recipients@ && b.amounts@ == amounts@ && b.supplied == supplied,
            Err(e) => native_rejection(recipients@.len(), amounts@, supplied.value()) == Some(e),
        },
{
    if recipients.len() != amounts.len() {
        return Err(Error::ArrayLengthMismatch);
    }
    if recipients.len() == 0 {
        return Err(Error::InvalidRecipient);
    }
    let total = match total_of(&amounts) {
        Ok(t) => t,
        Err(e) => return Err(e),
    };
    if crate::amount::u256_lt(supplied, total) {
        return Err(Error::InsufficientBalance);
    }
    Ok(Batch { sender, asset: Asset::Native, recipients, amounts, total, supplied })
}

/// Validates a batch of `sender` that distributes the token of the ledger
/// at `token`.
pub fn validate_token(
    sender: Address,
    token: Address,
    recipients: Vec<Address>,
    amounts: Vec<Amount>,
) -> (r: Result<Batch, Error>)
    ensures
        match r {
            Ok(b) => token_rejection(token@, recipients@.len(), amounts@) is None && b.wf()
                && b.sender == sender && b.asset == Asset::Token(token) && b.recipients@
                == recipients@ && b.amounts@ == amounts@ && b.supplied.value() == 0,
            Err(e) => token_rejection(token@, recipients@.len(), amounts@) == Some(e),
        },
{
    if recipients.len() != amounts.len() {
        return Err(Error::ArrayLengthMismatch);
    }
    if recipients.len() == 0 || token.is_zero() {
        return Err(Error::InvalidRecipient);
    }
    let total = match total_of(&amounts) {
        Ok(t) => t,
        Err(e) => return Err(e),
    };
    Ok(Batch {
        sender,
        asset: Asset::Token(token),
        recipients,
        amounts,
        total,
        supplied: Amount::zero(),
    })
}

/// The refund owed for a settled batch.
pub open spec fn refund_of(b: Batch) -> nat {
    match b.asset {
        Asset::Native => (b.supplied.value() - b.total.value()) as nat,
        Asset::Token(_) => 0,
    }
}

/// The report on a batch, given one reply per recipient.
pub fn settle_batch(batch: &Batch, replies: &Vec<Reply>) -> (r: Report)
    requires
        batch.wf(),
        replies@.len() == batch.recipients@.len(),
    ensures
        r.sender == batch.sender,
        r.asset == batch.asset,
        r.total == batch.total,
        r.outcomes@ == outcomes_of(*batch, replies@),
        r.successes == success_count(r.outcomes@),
        r.delivered.value() == delivered_of(r.outcomes@),
        r.delivered.value() <= r.total.value(),
        r.refund.value() == refund_of(*batch),
{
    let n = batch.recipients.len();
    let mut outcomes: Vec<Outcome> = Vec::new();
    let mut successes: usize = 0;
    let mut delivered = Amount::zero();
    let mut i: usize = 0;
    while i < n
        invariant
            batch.wf(),
            n == batch.recipients@.len(),
            replies@.len() == n,
            0 <= i <= n,
            outcomes@.len() == i,
            forall|j: int|
                0 <= j < i ==> outcomes@[j] == outcome_of(
                    batch.asset,
                    batch.recipients@[j],
                    batch.amounts@[j],
                    replies@[j],
                ),
            successes == success_count(outcomes@),
            successes <= i,
            delivered.value() == delivered_of(outcomes@),
            delivered_of(outcomes@) <= sum_of(batch.amounts@.take(i as int)),
        decreases n - i,
    {
        let o = outcome_for(batch.asset, batch.recipients[i], batch.amounts[i], &replies[i]);
        proof {
            lemma_sum_step(batch.amounts@, i as int);
            lemma_sum_prefix(batch.amounts@, i + 1);
            crate::amount::lemma_value_bound(batch.total);
            assert(outcomes@.push(o).drop_last() =~= outcomes@);
        }
        match o {
            Outcome::Success { amount, .. } => {
                match u256_checked_add(delivered, amount) {
                    Some(d) => delivered = d,
                    None => {},
                }
                successes = successes + 1;
            },
            Outcome::Failure { .. } => {},
        }
        outcomes.push(o);
        i = i + 1;
    }
    assert(outcomes@ =~= outcomes_of(*batch, replies@));
    assert(batch.amounts@.take(n as int) =~= batch.amounts@);
    let refund = match batch.asset {
        Asset::Native => match u256_checked_sub(batch.supplied, batch.total) {
            Some(x) => x,
            None => Amount::zero(),
        },
        Asset::Token(_) => Amount::zero(),
    };
    Report {
        sender: batch.sender,
        asset: batch.asset,
        total: batch.total,
        outcomes,
        successes,
        delivered,
        refund,
    }
}

} // verus!
