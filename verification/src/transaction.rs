//! Transactions, as far as the block pipeline reads them, in the forms that
//! they take on their way into a block.
//!
//! A signed transaction is the wire form. It becomes accepted when it is
//! within the limits of this peer, and valid or rejected when the validator
//! has judged it. Each form holds the same signed transaction.

use crate::hash;
use crate::wsv::WorldStateView;
use vstd::prelude::*;

verus! {

/// Limits to which transactions must adhere.
#[derive(Debug, Clone, Copy, PartialEq, Eq, Structural)]
pub struct TransactionLimits {
    /// Maximum number of instructions per transaction.
    pub max_instruction_number: u64,
    /// Maximum size of a wasm binary, in bytes.
    pub max_wasm_size_bytes: u64,
}

/// What a transaction executes, measured as the limits measure it.
#[derive(Debug, Clone, Copy, PartialEq, Eq, Structural)]
pub enum Executable {
    /// A list of instructions.
    Instructions {
        /// Number of instructions in the list.
        count: u64,
    },
    /// A wasm smart contract.
    Wasm {
        /// Size of the binary, in bytes.
        size_bytes: u64,
    },
}

/// A transaction is over a limit.
#[derive(Debug, Clone, Copy, PartialEq, Eq, Structural)]
pub enum TransactionLimitError {
    /// The transaction holds more instructions than the limit allows.
    TooManyInstructions {
        /// Number of instructions in the transaction.
        count: u64,
        /// The limit.
        limit: u64,
    },
    /// The wasm binary of the transaction is larger than the limit allows.
    WasmTooLarge {
        /// Size of the binary, in bytes.
        size_bytes: u64,
        /// The limit.
        limit: u64,
    },
}

/// Why the validator rejected a transaction.
#[derive(Debug, Clone, Copy, PartialEq, Eq, Structural)]
pub enum RejectionReason {
    /// The account has no permission to execute the transaction.
    NotPermitted,
    /// The signatures do not satisfy the signature condition of the account.
    UnsatisfiedSignatureCondition,
    /// The transaction is over a limit.
    LimitCheck,
    /// An instruction failed to execute.
    InstructionExecution,
    /// The wasm smart contract failed to execute.
    WasmExecution,
    /// The genesis account signed a transaction that is not in the genesis
    /// block.
    UnexpectedGenesisAccountSignature,
    /// The transaction is older than its time to live allows.
    Expired,
}

/// What the validator says of a transaction.
#[derive(Debug, Clone, Copy, PartialEq, Eq, Structural)]
pub enum Verdict {
    /// The validator has nothing against the transaction.
    Valid,
    /// The validator rejects the transaction, for this reason.
    Rejected(RejectionReason),
}

/// A transaction with the signatures of its authors, as it travels between
/// peers.
#[derive(Debug, Clone, PartialEq, Eq)]
pub struct SignedTransaction {
    /// Hash of the payload of the transaction.
    pub hash: hash::Hash,
    /// What the transaction executes.
    pub executable: Executable,
    /// The transaction in its canonical encoding. The pipeline carries it
    /// and does not look inside.
    pub payload: Vec<u8>,
}

impl SignedTransaction {
    /// The limit that the transaction is over, if there is one.
    pub open spec fn limit_exceeded(&self, limits: TransactionLimits) -> Option<
        TransactionLimitError,
    > {
        match self.executable {
            Executable::Instructions { count } => if count > limits.max_instruction_number {
                Some(
                    TransactionLimitError::TooManyInstructions {
                        count,
                        limit: limits.max_instruction_number,
                    },
                )
            } else {
                None
            },
            Executable::Wasm { size_bytes } => if size_bytes > limits.max_wasm_size_bytes {
                Some(
                    TransactionLimitError::WasmTooLarge {
                        size_bytes,
                        limit: limits.max_wasm_size_bytes,
                    },
                )
            } else {
                None
            },
        }
    }

    /// Whether the transaction is within `limits`.
    pub open spec fn within(&self, limits: TransactionLimits) -> bool {
        self.limit_exceeded(limits) is None
    }

    /// Hash of the transaction.
    #[inline]
    pub fn hash(&self) -> (hash: hash::Hash)
        ensures
            hash == self.hash,
    {
        self.hash
    }

    /// Checks that the transaction is within `limits`.
    ///
    /// # Errors
    /// The limit that the transaction is over: the number of instructions
    /// where it holds instructions, the size of the binary where it holds a
    /// wasm smart contract.
    pub fn check_limits(&self, limits: &TransactionLimits) -> (checked: Result<
        (),
        TransactionLimitError,
    >)
        ensures
            checked == match self.limit_exceeded(*limits) {
                Some(error) => Err::<(), TransactionLimitError>(error),
                None => Ok(()),
            },
    {
        match self.executable {
            Executable::Instructions { count } => {
                if count > limits.max_instruction_number {
                    return Err(
                        TransactionLimitError::TooManyInstructions {
                            count,
                            limit: limits.max_instruction_number,
                        },
                    );
                }
            },
            Executable::Wasm { size_bytes } => {
                if size_bytes > limits.max_wasm_size_bytes {
                    return Err(
                        TransactionLimitError::WasmTooLarge {
                            size_bytes,
                            limit: limits.max_wasm_size_bytes,
                        },
                    );
                }
            },
        }
        Ok(())
    }

    /// Whether the transaction is in the blockchain already.
    pub fn is_in_blockchain(&self, wsv: &WorldStateView) -> (present: bool)
        ensures
            present == wsv.spec_has_transaction(self.hash),
    {
        wsv.has_transaction(&self.hash)
    }
}

/// A transaction that this peer has accepted: it is within the limits.
#[derive(Debug, Clone, PartialEq, Eq)]
pub struct AcceptedTransaction {
    /// The signed transaction.
    pub transaction: SignedTransaction,
}

impl AcceptedTransaction {
    /// What becomes of the transaction under `verdict`: valid where the
    /// validator has nothing against it, else rejected for the reason given.
    pub open spec fn spec_with_verdict(self, verdict: Verdict) -> Result<
        ValidTransaction,
        RejectedTransaction,
    > {
        match verdict {
            Verdict::Valid => Ok(ValidTransaction { transaction: self.transaction }),
            Verdict::Rejected(rejection_reason) => Err(
                RejectedTransaction { transaction: self.transaction, rejection_reason },
            ),
        }
    }

    /// Accepts a signed transaction that is within `limits`.
    ///
    /// # Errors
    /// The limit that the transaction is over.
    pub fn from_transaction(transaction: SignedTransaction, limits: &TransactionLimits) -> (accepted:
        Result<Self, TransactionLimitError>)
        ensures
            accepted == match transaction.limit_exceeded(*limits) {
                Some(error) => Err::<Self, TransactionLimitError>(error),
                None => Ok(AcceptedTransaction { transaction }),
            },
    {
        match transaction.check_limits(limits) {
            Ok(()) => Ok(AcceptedTransaction { transaction }),
            Err(error) => Err(error),
        }
    }

    /// Hash of the transaction.
    #[inline]
    pub fn hash(&self) -> (hash: hash::Hash)
        ensures
            hash == self.transaction.hash,
    {
        self.transaction.hash
    }

    /// Turns the transaction into a valid or a rejected one, as the verdict
    /// of the validator says.
    pub fn with_verdict(self, verdict: Verdict) -> (judged: Result<
        ValidTransaction,
        RejectedTransaction,
    >)
        ensures
            judged == self.spec_with_verdict(verdict),
    {
        match verdict {
            Verdict::Valid => Ok(ValidTransaction { transaction: self.transaction }),
            Verdict::Rejected(rejection_reason) => Err(
                RejectedTransaction { transaction: self.transaction, rejection_reason },
            ),
        }
    }
}

/// A transaction that the validator found valid.
#[derive(Debug, Clone, PartialEq, Eq)]
pub struct ValidTransaction {
    /// The signed transaction.
    pub transaction: SignedTransaction,
}

impl ValidTransaction {
    /// Hash of the transaction.
    #[inline]
    pub fn hash(&self) -> (hash: hash::Hash)
        ensures
            hash == self.transaction.hash,
    {
        self.transaction.hash
    }
}

impl From<ValidTransaction> for SignedTransaction {
    fn from(valid: ValidTransaction) -> (signed: Self) {
        valid.transaction
    }
}

impl vstd::std_specs::convert::FromSpecImpl<ValidTransaction> for SignedTransaction {
    open spec fn obeys_from_spec() -> bool {
        true
    }

    open spec fn from_spec(valid: ValidTransaction) -> Self {
        valid.transaction
    }
}

/// A transaction that the validator rejected. It stays in the block: rejected
/// transactions are part of the ledger.
#[derive(Debug, Clone, PartialEq, Eq)]
pub struct RejectedTransaction {
    /// The signed transaction.
    pub transaction: SignedTransaction,
    /// Why the validator rejected it.
    pub rejection_reason: RejectionReason,
}

impl RejectedTransaction {
    /// Hash of the transaction.
    #[inline]
    pub fn hash(&self) -> (hash: hash::Hash)
        ensures
            hash == self.transaction.hash,
    {
        self.transaction.hash
    }
}

impl From<RejectedTransaction> for SignedTransaction {
    fn from(rejected: RejectedTransaction) -> (signed: Self) {
        rejected.transaction
    }
}

impl vstd::std_specs::convert::FromSpecImpl<RejectedTransaction> for SignedTransaction {
    open spec fn obeys_from_spec() -> bool {
        true
    }

    open spec fn from_spec(rejected: RejectedTransaction) -> Self {
        rejected.transaction
    }
}

/// The hashes of `transactions`, in their order.
pub open spec fn hashes(transactions: Seq<SignedTransaction>) -> Seq<hash::Hash> {
    transactions.map_values(|transaction: SignedTransaction| transaction.hash)
}

/// The signed transactions that stand behind accepted ones, in their order.
pub open spec fn signed_of_accepted(transactions: Seq<AcceptedTransaction>) -> Seq<
    SignedTransaction,
> {
    transactions.map_values(|accepted: AcceptedTransaction| accepted.transaction)
}

/// The signed transactions that stand behind valid ones, in their order.
pub open spec fn signed_of_valid(transactions: Seq<ValidTransaction>) -> Seq<SignedTransaction> {
    transactions.map_values(|valid: ValidTransaction| valid.transaction)
}

/// The signed transactions that stand behind rejected ones, in their order.
pub open spec fn signed_of_rejected(transactions: Seq<RejectedTransaction>) -> Seq<
    SignedTransaction,
> {
    transactions.map_values(|rejected: RejectedTransaction| rejected.transaction)
}

/// Of the first `count` of `transactions`, those whose verdict is `Valid`,
/// as valid transactions and in their order.
pub open spec fn valid_prefix(
    transactions: Seq<AcceptedTransaction>,
    verdicts: Seq<Verdict>,
    count: nat,
) -> Seq<ValidTransaction>
    decreases count,
{
    if count == 0 {
        Seq::empty()
    } else {
        let before = valid_prefix(transactions, verdicts, (count - 1) as nat);
        match verdicts[count - 1] {
            Verdict::Valid => before.push(
                ValidTransaction { transaction: transactions[count - 1].transaction },
            ),
            Verdict::Rejected(_) => before,
        }
    }
}

/// Of the first `count` of `transactions`, those whose verdict is
/// `Rejected`, as rejected transactions with the reason of the verdict, and
/// in their order.
pub open spec fn rejected_prefix(
    transactions: Seq<AcceptedTransaction>,
    verdicts: Seq<Verdict>,
    count: nat,
) -> Seq<RejectedTransaction>
    decreases count,
{
    if count == 0 {
        Seq::empty()
    } else {
        let before = rejected_prefix(transactions, verdicts, (count - 1) as nat);
        match verdicts[count - 1] {
            Verdict::Valid => before,
            Verdict::Rejected(rejection_reason) => before.push(
                RejectedTransaction {
                    transaction: transactions[count - 1].transaction,
                    rejection_reason,
                },
            ),
        }
    }
}

/// The transactions that the verdicts find valid, in their order.
pub open spec fn valid_under(transactions: Seq<AcceptedTransaction>, verdicts: Seq<Verdict>) -> Seq<
    ValidTransaction,
> {
    valid_prefix(transactions, verdicts, transactions.len())
}

/// The transactions that the verdicts reject, in their order.
pub open spec fn rejected_under(
    transactions: Seq<AcceptedTransaction>,
    verdicts: Seq<Verdict>,
) -> Seq<RejectedTransaction> {
    rejected_prefix(transactions, verdicts, transactions.len())
}

/// Parts the transactions by their verdicts, each part in the order in which
/// its transactions came in. `verdicts` holds one verdict for each
/// transaction.
pub fn partition(transactions: Vec<AcceptedTransaction>, verdicts: &Vec<Verdict>) -> (parts: (
    Vec<ValidTransaction>,
    Vec<RejectedTransaction>,
))
    requires
        verdicts@.len() == transactions@.len(),
    ensures
        parts.0@ == valid_under(transactions@, verdicts@),
        parts.1@ == rejected_under(transactions@, verdicts@),
{
    let ghost all = transactions@;
    let total = transactions.len();
    let mut valid: Vec<ValidTransaction> = Vec::new();
    let mut rejected: Vec<RejectedTransaction> = Vec::new();
    let mut i: usize = 0;
    for transaction in it: transactions.into_iter()
        invariant
            it.seq() == all,
            i == it.index(),
            all.len() == total,
            verdicts@.len() == all.len(),
            valid@ == valid_prefix(all, verdicts@, i as nat),
            rejected@ == rejected_prefix(all, verdicts@, i as nat),
    {
        match transaction.with_verdict(verdicts[i]) {
            Ok(judged) => valid.push(judged),
            Err(judged) => rejected.push(judged),
        }
        i += 1;
    }
    (valid, rejected)
}

/// Valid transactions as the signed transactions that they hold, in their
/// order.
pub fn valid_into_signed(transactions: Vec<ValidTransaction>) -> (signed: Vec<SignedTransaction>)
    ensures
        signed@ == signed_of_valid(transactions@),
{
    let ghost all = transactions@;
    let mut signed: Vec<SignedTransaction> = Vec::new();
    for transaction in it: transactions.into_iter()
        invariant
            it.seq() == all,
            signed@ == signed_of_valid(all.take(it.index() as int)),
    {
        assert(all.take(it.index() + 1) == all.take(it.index() as int).push(
            all[it.index() as int],
        ));
        signed.push(SignedTransaction::from(transaction));
        assert(signed@ =~= signed_of_valid(all.take(it.index() + 1)));
    }
    assert(all.take(all.len() as int) == all);
    signed
}

/// Rejected transactions as the signed transactions that they hold, in
/// their order. The reasons are dropped.
pub fn rejected_into_signed(transactions: Vec<RejectedTransaction>) -> (signed: Vec<
    SignedTransaction,
>)
    ensures
        signed@ == signed_of_rejected(transactions@),
{
    let ghost all = transactions@;
    let mut signed: Vec<SignedTransaction> = Vec::new();
    for transaction in it: transactions.into_iter()
        invariant
            it.seq() == all,
            signed@ == signed_of_rejected(all.take(it.index() as int)),
    {
        assert(all.take(it.index() + 1) == all.take(it.index() as int).push(
            all[it.index() as int],
        ));
        signed.push(SignedTransaction::from(transaction));
        assert(signed@ =~= signed_of_rejected(all.take(it.index() + 1)));
    }
    assert(all.take(all.len() as int) == all);
    signed
}

/// The hashes of valid transactions, in their order.
pub fn valid_hashes(transactions: &Vec<ValidTransaction>) -> (leaves: Vec<hash::Hash>)
    ensures
        leaves@ == hashes(signed_of_valid(transactions@)),
{
    let mut leaves: Vec<hash::Hash> = Vec::new();
    let mut i: usize = 0;
    while i < transactions.len()
        invariant
            i <= transactions.len(),
            leaves@ == hashes(signed_of_valid(transactions@.take(i as int))),
        decreases transactions.len() - i,
    {
        leaves.push(transactions[i].hash());
        assert(transactions@.take(i + 1) == transactions@.take(i as int).push(
            transactions@[i as int],
        ));
        assert(leaves@ =~= hashes(signed_of_valid(transactions@.take(i + 1))));
        i += 1;
    }
    assert(transactions@.take(transactions.len() as int) == transactions@);
    leaves
}

/// The hashes of rejected transactions, in their order.
pub fn rejected_hashes(transactions: &Vec<RejectedTransaction>) -> (leaves: Vec<hash::Hash>)
    ensures
        leaves@ == hashes(signed_of_rejected(transactions@)),
{
    let mut leaves: Vec<hash::Hash> = Vec::new();
    let mut i: usize = 0;
    while i < transactions.len()
        invariant
            i <= transactions.len(),
            leaves@ == hashes(signed_of_rejected(transactions@.take(i as int))),
        decreases transactions.len() - i,
    {
        leaves.push(transactions[i].hash());
        assert(transactions@.take(i + 1) == transactions@.take(i as int).push(
            transactions@[i as int],
        ));
        assert(leaves@ =~= hashes(signed_of_rejected(transactions@.take(i + 1))));
        i += 1;
    }
    assert(transactions@.take(transactions.len() as int) == transactions@);
    leaves
}

/// The hashes of signed transactions, in their order.
pub fn signed_hashes(transactions: &Vec<SignedTransaction>) -> (leaves: Vec<hash::Hash>)
    ensures
        leaves@ == hashes(transactions@),
{
    let mut leaves: Vec<hash::Hash> = Vec::new();
    let mut i: usize = 0;
    while i < transactions.len()
        invariant
            i <= transactions.len(),
            leaves@ == hashes(transactions@.take(i as int)),
        decreases transactions.len() - i,
    {
        leaves.push(transactions[i].hash());
        assert(transactions@.take(i + 1) == transactions@.take(i as int).push(
            transactions@[i as int],
        ));
        assert(leaves@ =~= hashes(transactions@.take(i + 1)));
        i += 1;
    }
    assert(transactions@.take(transactions.len() as int) == transactions@);
    leaves
}

/// The verdict that stands behind a judged transaction.
pub open spec fn verdict_of(judged: Result<ValidTransaction, RejectedTransaction>) -> Verdict {
    match judged {
        Ok(_) => Verdict::Valid,
        Err(rejected) => Verdict::Rejected(rejected.rejection_reason),
    }
}

/// The validator of transactions: the limits of this peer, and the check
/// that judges a transaction against the world state.
///
/// The check is asked with the transaction, with whether the block is the
/// genesis block, and with the view of the world state.
pub struct TransactionValidator<V> {
    /// Limits to which transactions must adhere.
    pub transaction_limits: TransactionLimits,
    /// The check that judges a transaction.
    pub check: V,
}

impl<V: Fn(&AcceptedTransaction, bool, &WorldStateView) -> Verdict> TransactionValidator<V> {
    /// A validator with these limits and this check.
    pub fn new(transaction_limits: TransactionLimits, check: V) -> (validator: Self)
        ensures
            validator.transaction_limits == transaction_limits,
            validator.check == check,
    {
        TransactionValidator { transaction_limits, check }
    }

    /// Whether the check can be asked about `transaction`.
    pub open spec fn accepts(
        &self,
        transaction: AcceptedTransaction,
        is_genesis: bool,
        wsv: WorldStateView,
    ) -> bool {
        call_requires(self.check, (&transaction, is_genesis, &wsv))
    }

    /// Whether `verdict` is an answer of the check about `transaction`.
    pub open spec fn judges(
        &self,
        transaction: AcceptedTransaction,
        is_genesis: bool,
        wsv: WorldStateView,
        verdict: Verdict,
    ) -> bool {
        call_ensures(self.check, (&transaction, is_genesis, &wsv), verdict)
    }

    /// Whether the check has one answer only to each question.
    pub open spec fn is_function(&self) -> bool {
        forall|
            transaction: AcceptedTransaction,
            is_genesis: bool,
            wsv: WorldStateView,
            first: Verdict,
            second: Verdict,
        |
            #[trigger] self.judges(transaction, is_genesis, wsv, first) && #[trigger] self.judges(
                transaction,
                is_genesis,
                wsv,
                second,
            ) ==> first == second
    }

    /// Judges a transaction against the world state.
    ///
    /// The result holds the transaction that came in: as a valid one where
    /// the check had nothing against it, else as a rejected one with the
    /// reason that the check gave.
    pub fn validate(
        &self,
        transaction: AcceptedTransaction,
        is_genesis: bool,
        wsv: &WorldStateView,
    ) -> (judged: Result<ValidTransaction, RejectedTransaction>)
        requires
            self.accepts(transaction, is_genesis, *wsv),
        ensures
            self.judges(transaction, is_genesis, *wsv, verdict_of(judged)),
            judged == transaction.spec_with_verdict(verdict_of(judged)),
    {
        let verdict = (self.check)(&transaction, is_genesis, wsv);
        transaction.with_verdict(verdict)
    }
}

} // verus!
