//! Error codes of the stake program, the mapping of buyback blockers onto them,
//! and hint texts for off-chain clients.

use crate::buyback::BuybackBlocker;
use solana_program::program_error::ProgramError;
use vstd::prelude::*;
use vstd::std_specs::convert::FromSpec;

verus! {

/// Errors of the stake program. The wire code of an error is its position in
/// this list, starting at 0; off-chain consumers pin the codes, so the list is
/// append-only.
#[derive(Debug, Clone, Copy, PartialEq, Eq, Structural)]
pub enum StakeError {
    /// Pool already initialized for this slab.
    AlreadyInitialized,
    /// Pool not initialized.
    NotInitialized,
    /// Unauthorized: not admin.
    Unauthorized,
    /// Cooldown period not elapsed.
    CooldownNotElapsed,
    /// Insufficient LP tokens.
    InsufficientLpTokens,
    /// Zero amount.
    ZeroAmount,
    /// Arithmetic overflow.
    Overflow,
    /// Invalid mint: LP mint mismatch.
    InvalidMint,
    /// Market is resolved: no new deposits.
    MarketResolved,
    /// Deposit cap exceeded.
    DepositCapExceeded,
    /// Invalid PDA derivation.
    InvalidPda,
    /// Deprecated; keeps the numbering stable.
    _DeprecatedAdminAlreadyTransferred,
    /// Deprecated; keeps the numbering stable.
    _DeprecatedAdminNotTransferred,
    /// Insufficient vault balance for withdrawal.
    InsufficientVaultBalance,
    /// Invalid percolator program ID.
    InvalidPercolatorProgram,
    /// CPI to percolator failed.
    CpiFailed,
    /// Invalid account ownership.
    InvalidAccount,
    /// Pool mode mismatch (for example AccrueFees on an insurance pool).
    InvalidPoolMode,
    /// Withdrawal blocked: it would breach the high-water-mark floor.
    WithdrawalBelowHwmFloor,
    /// Tranches not enabled on this pool.
    TrancheNotEnabled,
    /// The junior tranche has insufficient balance for this operation.
    JuniorBalanceInsufficient,
    /// Wrong tranche: the deposit PDA already belongs to a different tranche.
    WrongTranche,
    /// A deposit would mint zero LP shares. Distinct from `ZeroAmount`, which
    /// means that the requested amount itself was 0.
    ZeroSharesMinted,
    /// Two-step admin rotation: there is no pending proposal to accept.
    NoPendingAdmin,
    /// Junior tranche deposits are paused while an insurance loss is
    /// outstanding: a new junior would inherit a loss it was never exposed to.
    InsuranceLossOutstanding,
    /// A cooldown increase must go through the two-phase timelock.
    CooldownIncreaseRequiresTimelock,
    /// The timelock of a proposed cooldown increase has not elapsed yet.
    TimelockNotElapsed,
    /// There is no active cooldown-increase proposal to commit or cancel.
    NoPendingCooldownProposal,
    /// Buyback: less than the 24h cooldown since the last trigger.
    BuybackCooldownActive,
    /// Buyback: the treasury balance is at or below its floor.
    BuybackBelowTreasuryFloor,
    /// Buyback: the market is paying a haircut on positive PnL (stress).
    BuybackHaircutsActive,
    /// Buyback: the market is otherwise distressed and auto-paused.
    BuybackAutoPausedUnderStress,
    /// Buyback: a reserve-first staker top-up is owed or in flight; the buyback
    /// yields to it this slot.
    BuybackReserveTopUpPending,
    /// Buyback: the market has zero live exposure (not a real market).
    BuybackExposureBelowMinimum,
    /// Buyback: a checked arithmetic operation failed (fail-closed bucket).
    BuybackMathOverflow,
}

impl StakeError {
    /// The wire code.
    pub open spec fn code(self) -> u32 {
        self as u32
    }
}

/// Wire code of the first buyback error. The errors of the blockers follow from
/// here, in the blockers' own order.
pub const BUYBACK_ERROR_BASE: u32 = 28;

/// Declares [`ProgramError`] as an opaque type.
#[verifier::external_type_specification]
#[verifier::external_body]
pub struct ExProgramError(solana_program::program_error::ProgramError);

/// The value `ProgramError::Custom(code)`.
pub uninterp spec fn custom_program_error(code: u32) -> ProgramError;

/// Builds `ProgramError::Custom(code)`, the runtime's carrier for a program's
/// own error codes. Claims that the value is determined by the code, and that
/// no other code gives the same value.
#[verifier::external_body]
fn program_error_custom(code: u32) -> (error: ProgramError)
    ensures
        error == custom_program_error(code),
        forall|other: u32| #[trigger] custom_program_error(other) == error ==> other == code,
{
    ProgramError::Custom(code)
}

impl From<StakeError> for ProgramError {
    /// The custom program error that carries the wire code of `e`, and no other
    /// code: neither that of another stake error nor one from outside the list.
    fn from(e: StakeError) -> (error: ProgramError)
        ensures
            error == custom_program_error(e.code()),
            forall|code: u32| #[trigger] custom_program_error(code) == error ==> code == e.code(),
    {
        program_error_custom(e as u32)
    }
}

impl vstd::std_specs::convert::FromSpecImpl<StakeError> for ProgramError {
    open spec fn obeys_from_spec() -> bool {
        true
    }

    open spec fn from_spec(e: StakeError) -> ProgramError {
        custom_program_error(e.code())
    }
}

/// The error that reports blocker `b`.
pub open spec fn blocker_error(b: BuybackBlocker) -> StakeError {
    match b {
        BuybackBlocker::CooldownActive => StakeError::BuybackCooldownActive,
        BuybackBlocker::BelowTreasuryFloor => StakeError::BuybackBelowTreasuryFloor,
        BuybackBlocker::HaircutsActive => StakeError::BuybackHaircutsActive,
        BuybackBlocker::AutoPausedUnderStress => StakeError::BuybackAutoPausedUnderStress,
        BuybackBlocker::ReserveTopUpPending => StakeError::BuybackReserveTopUpPending,
        BuybackBlocker::ExposureBelowMinimum => StakeError::BuybackExposureBelowMinimum,
        BuybackBlocker::MathOverflow => StakeError::BuybackMathOverflow,
    }
}

impl From<BuybackBlocker> for StakeError {
    /// The error that reports blocker `b`.
    fn from(b: BuybackBlocker) -> (e: StakeError)
        ensures
            e == blocker_error(b),
            e.code() == BUYBACK_ERROR_BASE + b as u32,
    {
        match b {
            BuybackBlocker::CooldownActive => StakeError::BuybackCooldownActive,
            BuybackBlocker::BelowTreasuryFloor => StakeError::BuybackBelowTreasuryFloor,
            BuybackBlocker::HaircutsActive => StakeError::BuybackHaircutsActive,
            BuybackBlocker::AutoPausedUnderStress => StakeError::BuybackAutoPausedUnderStress,
            BuybackBlocker::ReserveTopUpPending => StakeError::BuybackReserveTopUpPending,
            BuybackBlocker::ExposureBelowMinimum => StakeError::BuybackExposureBelowMinimum,
            BuybackBlocker::MathOverflow => StakeError::BuybackMathOverflow,
        }
    }
}

impl vstd::std_specs::convert::FromSpecImpl<BuybackBlocker> for StakeError {
    open spec fn obeys_from_spec() -> bool {
        true
    }

    open spec fn from_spec(b: BuybackBlocker) -> StakeError {
        blocker_error(b)
    }
}

/// The text for a code that has no hint of its own.
pub open spec fn unknown_hint() -> Seq<char> {
    "Unknown error — check the error code and pool state"@
}

/// The hint text for an error code.
pub open spec fn hint_text(code: u32) -> Seq<char> {
    match code {
        0 => "Pool already initialized — use a different slab address or check if InitPool was already called"@,
        1 => "Pool not initialized — call InitPool first to create the stake pool"@,
        2 => "Unauthorized — you must be the pool admin to perform this action"@,
        3 => "Cooldown not elapsed — wait for the cooldown period before withdrawing again"@,
        4 => "Insufficient LP tokens — you don't have enough LP tokens to burn"@,
        5 => "Zero amount — deposit and withdrawal amounts must be greater than zero"@,
        6 => "Arithmetic overflow — pool values exceeded u64 bounds, operation blocked"@,
        7 => "Invalid mint — LP mint doesn't match the pool's LP mint"@,
        8 => "Market is resolved — no new deposits allowed after resolution"@,
        9 => "Deposit cap exceeded — pool has reached its maximum deposit limit"@,
        10 => "Invalid PDA — account is not a valid PDA for the expected seed"@,
        11 => "Admin already transferred — transfer admin is a one-time operation"@,
        12 => "Admin not yet transferred — call TransferAdmin before performing admin operations"@,
        13 => "Insufficient vault balance — vault doesn't have enough collateral for this withdrawal"@,
        14 => "Invalid percolator program — percolator program ID doesn't match"@,
        15 => "CPI to percolator failed — the cross-program invoke to percolator failed"@,
        16 => "Invalid account — account is not owned by the expected program or is not writable"@,
        17 => "Pool mode mismatch — operation not valid for this pool's mode (e.g., AccrueFees on insurance pool)"@,
        18 => "Withdrawal blocked — would breach high-water mark floor protection"@,
        19 => "Tranches not enabled — senior/junior tranches are not enabled on this pool"@,
        20 => "Junior balance insufficient — junior tranche doesn't have enough balance for this operation"@,
        21 => "Wrong tranche — deposit already belongs to a different tranche"@,
        22 => "Zero shares minted — deposit amount too small to mint any LP at the current share price; increase the amount"@,
        23 => "No pending admin — there is no admin transfer to accept (propose one first, or it was cancelled)"@,
        24 => "Insurance loss outstanding — junior tranche deposits are paused until the flushed insurance is returned (total_flushed > total_returned)"@,
        28 => "Buyback cooldown active — less than 24h since the last buyback trigger for this market"@,
        29 => "Buyback below treasury floor — the buyback treasury is at or below its floor; nothing to spend"@,
        30 => "Buyback haircuts active — the market is paying a haircut on positive PnL; buyback paused under stress"@,
        31 => "Buyback auto-paused — the market is distressed; the fee accrues to the staker reserve instead"@,
        32 => "Buyback reserve top-up pending — stakers are credited toward the reserve target first this slot"@,
        33 => "Buyback exposure below minimum — the market has no live open interest to buy back against"@,
        34 => "Buyback math overflow — a checked arithmetic operation failed in the buyback gate"@,
        _ => unknown_hint(),
    }
}

/// Hint text for an error code, for off-chain clients that want to tell a user
/// what to do about it.
pub fn error_hint(code: u32) -> (hint: &'static str)
    ensures
        hint@ == hint_text(code),
{
    match code {
        0 => "Pool already initialized — use a different slab address or check if InitPool was already called",
        1 => "Pool not initialized — call InitPool first to create the stake pool",
        2 => "Unauthorized — you must be the pool admin to perform this action",
        3 => "Cooldown not elapsed — wait for the cooldown period before withdrawing again",
        4 => "Insufficient LP tokens — you don't have enough LP tokens to burn",
        5 => "Zero amount — deposit and withdrawal amounts must be greater than zero",
        6 => "Arithmetic overflow — pool values exceeded u64 bounds, operation blocked",
        7 => "Invalid mint — LP mint doesn't match the pool's LP mint",
        8 => "Market is resolved — no new deposits allowed after resolution",
        9 => "Deposit cap exceeded — pool has reached its maximum deposit limit",
        10 => "Invalid PDA — account is not a valid PDA for the expected seed",
        11 => "Admin already transferred — transfer admin is a one-time operation",
        12 => "Admin not yet transferred — call TransferAdmin before performing admin operations",
        13 => "Insufficient vault balance — vault doesn't have enough collateral for this withdrawal",
        14 => "Invalid percolator program — percolator program ID doesn't match",
        15 => "CPI to percolator failed — the cross-program invoke to percolator failed",
        16 => "Invalid account — account is not owned by the expected program or is not writable",
        17 => "Pool mode mismatch — operation not valid for this pool's mode (e.g., AccrueFees on insurance pool)",
        18 => "Withdrawal blocked — would breach high-water mark floor protection",
        19 => "Tranches not enabled — senior/junior tranches are not enabled on this pool",
        20 => "Junior balance insufficient — junior tranche doesn't have enough balance for this operation",
        21 => "Wrong tranche — deposit already belongs to a different tranche",
        22 => "Zero shares minted — deposit amount too small to mint any LP at the current share price; increase the amount",
        23 => "No pending admin — there is no admin transfer to accept (propose one first, or it was cancelled)",
        24 => "Insurance loss outstanding — junior tranche deposits are paused until the flushed insurance is returned (total_flushed > total_returned)",
        28 => "Buyback cooldown active — less than 24h since the last buyback trigger for this market",
        29 => "Buyback below treasury floor — the buyback treasury is at or below its floor; nothing to spend",
        30 => "Buyback haircuts active — the market is paying a haircut on positive PnL; buyback paused under stress",
        31 => "Buyback auto-paused — the market is distressed; the fee accrues to the staker reserve instead",
        32 => "Buyback reserve top-up pending — stakers are credited toward the reserve target first this slot",
        33 => "Buyback exposure below minimum — the market has no live open interest to buy back against",
        34 => "Buyback math overflow — a checked arithmetic operation failed in the buyback gate",
        _ => "Unknown error — check the error code and pool state",
    }
}

/// Whether a code has a hint of its own.
pub open spec fn has_hint(code: u32) -> bool {
    code <= StakeError::InsuranceLossOutstanding.code() || BUYBACK_ERROR_BASE <= code
        <= StakeError::BuybackMathOverflow.code()
}

/// A code gets a text other than the unknown one exactly if it has a hint of
/// its own, and the codes without one are 25 to 27 and those from 35 on.
pub proof fn law_hint_known(code: u32)
    ensures
        hint_text(code) != unknown_hint() <==> has_hint(code),
        hint_text(code) == "Unknown error — check the error code and pool state"@ <==> 25 <= code
            <= 27 || 35 <= code,
{
    reveal_strlit("Unknown error — check the error code and pool state");
    match code {
        0 => {
            reveal_strlit("Pool already initialized — use a different slab address or check if InitPool was already called");
        },
        1 => {
            reveal_strlit("Pool not initialized — call InitPool first to create the stake pool");
        },
        2 => {
            reveal_strlit("Unauthorized — you must be the pool admin to perform this action");
        },
        3 => {
            reveal_strlit("Cooldown not elapsed — wait for the cooldown period before withdrawing again");
        },
        4 => {
            reveal_strlit("Insufficient LP tokens — you don't have enough LP tokens to burn");
        },
        5 => {
            reveal_strlit("Zero amount — deposit and withdrawal amounts must be greater than zero");
        },
        6 => {
            reveal_strlit("Arithmetic overflow — pool values exceeded u64 bounds, operation blocked");
        },
        7 => {
            reveal_strlit("Invalid mint — LP mint doesn't match the pool's LP mint");
        },
        8 => {
            reveal_strlit("Market is resolved — no new deposits allowed after resolution");
        },
        9 => {
            reveal_strlit("Deposit cap exceeded — pool has reached its maximum deposit limit");
        },
        10 => {
            reveal_strlit("Invalid PDA — account is not a valid PDA for the expected seed");
        },
        11 => {
            reveal_strlit("Admin already transferred — transfer admin is a one-time operation");
        },
        12 => {
            reveal_strlit("Admin not yet transferred — call TransferAdmin before performing admin operations");
        },
        13 => {
            reveal_strlit("Insufficient vault balance — vault doesn't have enough collateral for this withdrawal");
        },
        14 => {
            reveal_strlit("Invalid percolator program — percolator program ID doesn't match");
        },
        15 => {
            reveal_strlit("CPI to percolator failed — the cross-program invoke to percolator failed");
        },
        16 => {
            reveal_strlit("Invalid account — account is not owned by the expected program or is not writable");
        },
        17 => {
            reveal_strlit("Pool mode mismatch — operation not valid for this pool's mode (e.g., AccrueFees on insurance pool)");
        },
        18 => {
            reveal_strlit("Withdrawal blocked — would breach high-water mark floor protection");
        },
        19 => {
            reveal_strlit("Tranches not enabled — senior/junior tranches are not enabled on this pool");
        },
        20 => {
            reveal_strlit("Junior balance insufficient — junior tranche doesn't have enough balance for this operation");
        },
        21 => {
            reveal_strlit("Wrong tranche — deposit already belongs to a different tranche");
        },
        22 => {
            reveal_strlit("Zero shares minted — deposit amount too small to mint any LP at the current share price; increase the amount");
        },
        23 => {
            reveal_strlit("No pending admin — there is no admin transfer to accept (propose one first, or it was cancelled)");
        },
        24 => {
            reveal_strlit("Insurance loss outstanding — junior tranche deposits are paused until the flushed insurance is returned (total_flushed > total_returned)");
        },
        28 => {
            reveal_strlit("Buyback cooldown active — less than 24h since the last buyback trigger for this market");
        },
        29 => {
            reveal_strlit("Buyback below treasury floor — the buyback treasury is at or below its floor; nothing to spend");
        },
        30 => {
            reveal_strlit("Buyback haircuts active — the market is paying a haircut on positive PnL; buyback paused under stress");
        },
        31 => {
            reveal_strlit("Buyback auto-paused — the market is distressed; the fee accrues to the staker reserve instead");
        },
        32 => {
            reveal_strlit("Buyback reserve top-up pending — stakers are credited toward the reserve target first this slot");
        },
        33 => {
            reveal_strlit("Buyback exposure below minimum — the market has no live open interest to buy back against");
        },
        34 => {
            reveal_strlit("Buyback math overflow — a checked arithmetic operation failed in the buyback gate");
        },
        _ => {},
    }
    assert(has_hint(code) ==> hint_text(code)[0] != 'U' || hint_text(code)[2] != 'k');
}

/// Every error has a hint of its own, but for the three of the cooldown-increase
/// timelock.
pub proof fn law_errors_have_hints(e: StakeError)
    ensures
        hint_text(e.code()) != unknown_hint() <==> !(e is CooldownIncreaseRequiresTimelock
            || e is TimelockNotElapsed || e is NoPendingCooldownProposal),
{
    law_hint_known(e.code());
}

/// Every blocker is reported under a code between 28 and 34, in the blockers' own
/// order, as the custom program error of that code, and with a hint of its own.
pub proof fn law_blockers_on_the_wire(b: BuybackBlocker)
    ensures
        ProgramError::from_spec(StakeError::from_spec(b)) == custom_program_error(
            (BUYBACK_ERROR_BASE + b as u32) as u32,
        ),
        blocker_error(b).code() == BUYBACK_ERROR_BASE + b as u32,
        28 <= blocker_error(b).code() <= 34,
        hint_text(blocker_error(b).code()) != unknown_hint(),
{
    law_hint_known(blocker_error(b).code());
}

/// No two errors share a wire code, and no two blockers share an error.
pub proof fn law_codes_distinct(
    e1: StakeError,
    e2: StakeError,
    b1: BuybackBlocker,
    b2: BuybackBlocker,
)
    ensures
        e1.code() == e2.code() ==> e1 == e2,
        blocker_error(b1) == blocker_error(b2) ==> b1 == b2,
{
}

} // verus!
