//! Creating the mint and changing the supply.
//!
//! Each operation takes the accounts it works on, decides whether the request
//! stands, and on success leaves the accounts as the ledger holds them once
//! the request is applied. A refused request changes nothing.

use crate::accounts::{
    MintAccount, MintAccountView, MintRecord, MintRecordView, Signer, TokenAccount,
    MINT_ACCOUNT_SIZE, MONARCA_DECIMALS,
};
use crate::error::ErrorCode;
use vstd::prelude::*;

verus! {

/// The accounts for creating the mint.
#[derive(Clone, Copy, Debug, PartialEq, Eq)]
pub struct InitializeMint {
    /// The account at the mint's address.
    pub mint: MintAccount,
    /// Pays for the record and becomes mint authority and freeze authority.
    pub authority: Signer,
    /// Lamports that the ledger takes for keeping a record of the mint's size.
    pub rent: u64,
}

impl InitializeMint {
    /// The answer to a request to create the mint on these accounts.
    pub open spec fn outcome(self) -> Result<(), ErrorCode> {
        if self.mint@.record is Some {
            Err(ErrorCode::AlreadyInitialized)
        } else if self.authority.lamports < self.rent {
            Err(ErrorCode::AllocationFailed)
        } else {
            Ok(())
        }
    }

    /// Whether `after` is what creating the mint makes of `before`, with the
    /// answer `r`.
    pub open spec fn step(before: Self, r: Result<(), ErrorCode>, after: Self) -> bool {
        &&& r == before.outcome()
        &&& r is Err ==> after == before
        &&& r is Ok ==> {
            &&& after.mint@ == (MintAccountView {
                record: Some(
                    MintRecordView::created(
                        before.mint@.program_id,
                        before.mint@.address,
                        before.authority.address,
                    ),
                ),
                ..before.mint@
            })
            &&& after.authority.address == before.authority.address
            &&& after.authority.lamports == before.authority.lamports - before.rent
            &&& after.rent == before.rent
        }
    }
}

/// Creates the mint: puts its record into the account at the mint's address,
/// with the signer as mint authority and freeze authority and no tokens in
/// circulation, and takes the rent from the signer.
///
/// Refused as `AlreadyInitialized` where the account holds a record already,
/// else as `AllocationFailed` where the signer has less than the rent.
pub fn initialize_mint(ctx: &mut InitializeMint) -> (r: Result<(), ErrorCode>)
    ensures
        InitializeMint::step(*old(ctx), r, *final(ctx)),
{
    if ctx.mint.is_initialized() {
        return Err(ErrorCode::AlreadyInitialized);
    }
    if ctx.authority.lamports < ctx.rent {
        return Err(ErrorCode::AllocationFailed);
    }
    ctx.authority.lamports = ctx.authority.lamports - ctx.rent;
    ctx.mint.create_record(ctx.authority.address);
    Ok(())
}

/// The accounts for increasing the supply.
#[derive(Clone, Copy, Debug, PartialEq, Eq)]
pub struct MintTokens {
    /// The record of the mint.
    pub mint: MintRecord,
    /// The token account that receives the new tokens.
    pub destination: TokenAccount,
    /// The signer of the request.
    pub authority: Signer,
}

impl MintTokens {
    /// The answer to a request to issue `amount` tokens on these accounts.
    pub open spec fn outcome(self, amount: u64) -> Result<(), ErrorCode> {
        if self.destination.mint != self.mint@.address {
            Err(ErrorCode::MintMismatch)
        } else if amount == 0 {
            Err(ErrorCode::InvalidAmount)
        } else if self.authority.address != self.mint@.mint_authority {
            Err(ErrorCode::Unauthorized)
        } else if self.mint@.supply + amount > u64::MAX || self.destination.balance + amount
            > u64::MAX {
            Err(ErrorCode::AllocationFailed)
        } else {
            Ok(())
        }
    }

    /// Whether `after` is what issuing `amount` tokens makes of `before`, with
    /// the answer `r`.
    pub open spec fn step(
        before: Self,
        amount: u64,
        r: Result<(), ErrorCode>,
        after: Self,
    ) -> bool {
        &&& r == before.outcome(amount)
        &&& r is Err ==> after == before
        &&& r is Ok ==> {
            &&& after.mint@.supply == before.mint@.supply + amount
            &&& after.mint@ == (MintRecordView { supply: after.mint@.supply, ..before.mint@ })
            &&& after.destination.balance == before.destination.balance + amount
            &&& after.destination.mint == before.destination.mint
            &&& after.destination.owner == before.destination.owner
            &&& after.authority == before.authority
        }
    }
}

/// Issues `amount` new tokens to the destination account: the supply and the
/// account's balance both grow by `amount`.
///
/// Refused, in this order, as `MintMismatch` where the destination belongs to
/// another mint, as `InvalidAmount` where the amount is zero, as
/// `Unauthorized` where the signer is not the mint authority, and as
/// `AllocationFailed` where the supply or the balance would pass `u64::MAX`.
pub fn mint_tokens(ctx: &mut MintTokens, amount: u64) -> (r: Result<(), ErrorCode>)
    ensures
        MintTokens::step(*old(ctx), amount, r, *final(ctx)),
{
    if ctx.destination.mint != ctx.mint.address() {
        return Err(ErrorCode::MintMismatch);
    }
    if amount == 0 {
        return Err(ErrorCode::InvalidAmount);
    }
    if ctx.authority.address != ctx.mint.mint_authority() {
        return Err(ErrorCode::Unauthorized);
    }
    let supply = match ctx.mint.supply().checked_add(amount) {
        Some(supply) => supply,
        None => {
            return Err(ErrorCode::AllocationFailed);
        },
    };
    let balance = match ctx.destination.balance.checked_add(amount) {
        Some(balance) => balance,
        None => {
            return Err(ErrorCode::AllocationFailed);
        },
    };
    ctx.mint.set_supply(supply);
    ctx.destination.balance = balance;
    Ok(())
}

/// The accounts for decreasing the supply.
#[derive(Clone, Copy, Debug, PartialEq, Eq)]
pub struct BurnTokens {
    /// The record of the mint.
    pub mint: MintRecord,
    /// The token account that the tokens are taken from.
    pub source: TokenAccount,
    /// The signer of the request.
    pub authority: Signer,
}

impl BurnTokens {
    /// The answer to a request to destroy `amount` tokens on these accounts.
    pub open spec fn outcome(self, amount: u64) -> Result<(), ErrorCode> {
        if self.source.mint != self.mint@.address {
            Err(ErrorCode::MintMismatch)
        } else if amount == 0 {
            Err(ErrorCode::InvalidAmount)
        } else if self.source.balance < amount {
            Err(ErrorCode::InsufficientBalance)
        } else if self.authority.address != self.source.owner {
            Err(ErrorCode::Unauthorized)
        } else if self.mint@.supply < amount {
            Err(ErrorCode::InsufficientBalance)
        } else {
            Ok(())
        }
    }

    /// Whether `after` is what destroying `amount` tokens makes of `before`,
    /// with the answer `r`.
    pub open spec fn step(
        before: Self,
        amount: u64,
        r: Result<(), ErrorCode>,
        after: Self,
    ) -> bool {
        &&& r == before.outcome(amount)
        &&& r is Err ==> after == before
        &&& r is Ok ==> {
            &&& after.mint@.supply == before.mint@.supply - amount
            &&& after.mint@ == (MintRecordView { supply: after.mint@.supply, ..before.mint@ })
            &&& after.source.balance == before.source.balance - amount
            &&& after.source.mint == before.source.mint
            &&& after.source.owner == before.source.owner
            &&& after.authority == before.authority
        }
    }
}

/// Destroys `amount` tokens of the source account: the supply and the
/// account's balance both shrink by `amount`.
///
/// Refused, in this order, as `MintMismatch` where the source belongs to
/// another mint, as `InvalidAmount` where the amount is zero, as
/// `InsufficientBalance` where the account holds less than the amount, as
/// `Unauthorized` where the signer is not the owner of the account, and as
/// `InsufficientBalance` where fewer tokens circulate than the amount.
pub fn burn_tokens(ctx: &mut BurnTokens, amount: u64) -> (r: Result<(), ErrorCode>)
    ensures
        BurnTokens::step(*old(ctx), amount, r, *final(ctx)),
{
    if ctx.source.mint != ctx.mint.address() {
        return Err(ErrorCode::MintMismatch);
    }
    if amount == 0 {
        return Err(ErrorCode::InvalidAmount);
    }
    if ctx.source.balance < amount {
        return Err(ErrorCode::InsufficientBalance);
    }
    if ctx.authority.address != ctx.source.owner {
        return Err(ErrorCode::Unauthorized);
    }
    if ctx.mint.supply() < amount {
        return Err(ErrorCode::InsufficientBalance);
    }
    let supply = ctx.mint.supply() - amount;
    ctx.mint.set_supply(supply);
    ctx.source.balance = ctx.source.balance - amount;
    Ok(())
}

/// A mint is created at most once. On the account that a successful request
/// has left, every further request is refused as `AlreadyInitialized`,
/// whoever signs it and whatever it can pay, and changes nothing.
pub proof fn lemma_initialize_once(
    first: InitializeMint,
    created: InitializeMint,
    again: InitializeMint,
    r: Result<(), ErrorCode>,
    after: InitializeMint,
)
    requires
        InitializeMint::step(first, Ok(()), created),
        again.mint == created.mint,
        InitializeMint::step(again, r, after),
    ensures
        r == Err::<(), ErrorCode>(ErrorCode::AlreadyInitialized),
        after == again,
{
}

/// A request to create the mint succeeds exactly on an empty account whose
/// signer can pay the rent. The record then holds the fixed precision, the
/// signer in both roles and no tokens, and takes up the size of a mint.
pub proof fn lemma_initialize_succeeds(
    before: InitializeMint,
    r: Result<(), ErrorCode>,
    after: InitializeMint,
)
    requires
        InitializeMint::step(before, r, after),
    ensures
        r is Ok <==> before.mint@.record is None && before.authority.lamports >= before.rent,
        r is Ok ==> {
            &&& after.mint@.record is Some
            &&& after.mint@.record->0.decimals == MONARCA_DECIMALS
            &&& after.mint@.record->0.mint_authority == before.authority.address
            &&& after.mint@.record->0.freeze_authority == before.authority.address
            &&& after.mint@.record->0.supply == 0
            &&& after.mint@.address == before.mint@.address
            &&& after.mint@.space() == MINT_ACCOUNT_SIZE
        },
{
}

/// A request for no tokens is refused as `InvalidAmount` and changes nothing,
/// whether it asks to issue or to destroy, on a token account of the mint.
pub proof fn lemma_zero_amount_refused(
    issue: MintTokens,
    issue_r: Result<(), ErrorCode>,
    issue_after: MintTokens,
    burn: BurnTokens,
    burn_r: Result<(), ErrorCode>,
    burn_after: BurnTokens,
)
    requires
        issue.destination.mint == issue.mint@.address,
        burn.source.mint == burn.mint@.address,
        MintTokens::step(issue, 0, issue_r, issue_after),
        BurnTokens::step(burn, 0, burn_r, burn_after),
    ensures
        issue_r == Err::<(), ErrorCode>(ErrorCode::InvalidAmount),
        issue_after == issue,
        burn_r == Err::<(), ErrorCode>(ErrorCode::InvalidAmount),
        burn_after == burn,
{
}

/// Where tokens are issued, the mint authority signed, the amount is not
/// zero, and the supply and the destination's balance both grow by exactly
/// the amount. The rest of the record stays as it was.
pub proof fn lemma_issue_adds_amount(before: MintTokens, amount: u64, after: MintTokens)
    requires
        MintTokens::step(before, amount, Ok(()), after),
    ensures
        before.authority.address == before.mint@.mint_authority,
        before.destination.mint == before.mint@.address,
        amount > 0,
        after.mint@.supply == before.mint@.supply + amount,
        after.destination.balance == before.destination.balance + amount,
        after.mint@.address == before.mint@.address,
        after.mint@.decimals == before.mint@.decimals,
        after.mint@.mint_authority == before.mint@.mint_authority,
        after.mint@.freeze_authority == before.mint@.freeze_authority,
{
}

/// A request to issue tokens that another identity than the mint authority
/// signed is refused as `Unauthorized` and changes nothing, where the amount
/// is not zero and the destination is a token account of the mint.
pub proof fn lemma_issue_unauthorized(
    before: MintTokens,
    amount: u64,
    r: Result<(), ErrorCode>,
    after: MintTokens,
)
    requires
        before.authority.address != before.mint@.mint_authority,
        before.destination.mint == before.mint@.address,
        amount > 0,
        MintTokens::step(before, amount, r, after),
    ensures
        r == Err::<(), ErrorCode>(ErrorCode::Unauthorized),
        after == before,
{
}

/// Where tokens are destroyed, the owner of the source signed, the source
/// held at least the amount, and the supply and the source's balance both
/// shrink by exactly the amount. The rest of the record stays as it was.
pub proof fn lemma_burn_subtracts_amount(before: BurnTokens, amount: u64, after: BurnTokens)
    requires
        BurnTokens::step(before, amount, Ok(()), after),
    ensures
        before.authority.address == before.source.owner,
        before.source.mint == before.mint@.address,
        0 < amount <= before.source.balance,
        after.mint@.supply == before.mint@.supply - amount,
        after.source.balance == before.source.balance - amount,
        after.mint@.address == before.mint@.address,
        after.mint@.decimals == before.mint@.decimals,
        after.mint@.mint_authority == before.mint@.mint_authority,
        after.mint@.freeze_authority == before.mint@.freeze_authority,
{
}

/// A request to destroy more tokens than the source holds is refused as
/// `InsufficientBalance` and changes nothing, whoever signs it, where the
/// amount is not zero and the source is a token account of the mint.
pub proof fn lemma_burn_insufficient(
    before: BurnTokens,
    amount: u64,
    r: Result<(), ErrorCode>,
    after: BurnTokens,
)
    requires
        before.source.balance < amount,
        before.source.mint == before.mint@.address,
        BurnTokens::step(before, amount, r, after),
    ensures
        r == Err::<(), ErrorCode>(ErrorCode::InsufficientBalance),
        after == before,
{
}

/// A request on a token account of another mint is refused as `MintMismatch`
/// and changes nothing, whether it asks to issue or to destroy, whatever the
/// amount and whoever signs it.
pub proof fn lemma_other_mint_refused(
    issue: MintTokens,
    issue_amount: u64,
    issue_r: Result<(), ErrorCode>,
    issue_after: MintTokens,
    burn: BurnTokens,
    burn_amount: u64,
    burn_r: Result<(), ErrorCode>,
    burn_after: BurnTokens,
)
    requires
        issue.destination.mint != issue.mint@.address,
        burn.source.mint != burn.mint@.address,
        MintTokens::step(issue, issue_amount, issue_r, issue_after),
        BurnTokens::step(burn, burn_amount, burn_r, burn_after),
    ensures
        issue_r == Err::<(), ErrorCode>(ErrorCode::MintMismatch),
        issue_after == issue,
        burn_r == Err::<(), ErrorCode>(ErrorCode::MintMismatch),
        burn_after == burn,
{
}

/// The mint stays where it is and what it is: no operation moves a record to
/// another address or program, changes its precision or its authorities, or
/// leaves it ill formed.
pub proof fn lemma_record_is_kept(
    create: InitializeMint,
    create_r: Result<(), ErrorCode>,
    create_after: InitializeMint,
    issue: MintTokens,
    issue_amount: u64,
    issue_r: Result<(), ErrorCode>,
    issue_after: MintTokens,
    burn: BurnTokens,
    burn_amount: u64,
    burn_r: Result<(), ErrorCode>,
    burn_after: BurnTokens,
)
    requires
        create.mint@.wf(),
        issue.mint@.wf(),
        burn.mint@.wf(),
        InitializeMint::step(create, create_r, create_after),
        MintTokens::step(issue, issue_amount, issue_r, issue_after),
        BurnTokens::step(burn, burn_amount, burn_r, burn_after),
    ensures
        create_after.mint@.wf(),
        create_after.mint@.address == create.mint@.address,
        create_after.mint@.program_id == create.mint@.program_id,
        create.mint@.record is Some ==> create_after.mint@.record == create.mint@.record,
        issue_after.mint@.wf(),
        issue_after.mint@ == (MintRecordView { supply: issue_after.mint@.supply, ..issue.mint@ }),
        burn_after.mint@.wf(),
        burn_after.mint@ == (MintRecordView { supply: burn_after.mint@.supply, ..burn.mint@ }),
{
}

} // verus!
