//! The accounts that the operations read and change.

use crate::address::{
    has_derived, is_derived, lemma_derivation_deterministic, mint_address, Address, MINT_SEED,
};
use vstd::prelude::*;

verus! {

/// Number of decimal places of the token: amounts count millionths.
pub const MONARCA_DECIMALS: u8 = 6;

/// Size in bytes of the storage that holds a mint record.
pub const MINT_ACCOUNT_SIZE: u64 = 82;

/// The identity that signed a request, with the funds it can spend.
#[derive(Clone, Copy, Debug, PartialEq, Eq)]
pub struct Signer {
    pub address: Address,
    pub lamports: u64,
}

/// A token account as the ledger holds it.
#[derive(Clone, Copy, Debug, PartialEq, Eq)]
pub struct TokenAccount {
    /// The mint whose tokens the account holds.
    pub mint: Address,
    /// The identity that may spend from the account.
    pub owner: Address,
    /// Tokens held, in the smallest unit.
    pub balance: u64,
}

/// What a mint record holds.
pub struct MintRecordView {
    pub program_id: Address,
    pub address: Address,
    pub decimals: u8,
    pub mint_authority: Address,
    pub freeze_authority: Address,
    pub supply: u64,
}

impl MintRecordView {
    /// What holds of every mint record: it lies at the address derived for its
    /// program, counts in millionths, and has one authority for both roles.
    pub open spec fn wf(self) -> bool {
        &&& is_derived(MINT_SEED@, self.program_id, self.address)
        &&& self.decimals == MONARCA_DECIMALS
        &&& self.freeze_authority == self.mint_authority
    }

    /// The record of a mint that `authority` has just created for `program_id`
    /// at `address`.
    pub open spec fn created(program_id: Address, address: Address, authority: Address) -> Self {
        MintRecordView {
            program_id,
            address,
            decimals: MONARCA_DECIMALS,
            mint_authority: authority,
            freeze_authority: authority,
            supply: 0,
        }
    }
}

/// The record of an existing mint. Values are made by a `MintAccount` only.
#[derive(Clone, Copy, Debug, PartialEq, Eq)]
pub struct MintRecord {
    program_id: Address,
    address: Address,
    decimals: u8,
    mint_authority: Address,
    freeze_authority: Address,
    supply: u64,
}

impl View for MintRecord {
    type V = MintRecordView;

    closed spec fn view(&self) -> MintRecordView {
        MintRecordView {
            program_id: self.program_id,
            address: self.address,
            decimals: self.decimals,
            mint_authority: self.mint_authority,
            freeze_authority: self.freeze_authority,
            supply: self.supply,
        }
    }
}

impl MintRecord {
    #[verifier::type_invariant]
    spec fn inv(&self) -> bool {
        self@.wf()
    }

    /// The program that controls the mint.
    pub fn program_id(&self) -> (a: Address)
        ensures
            a == self@.program_id,
    {
        self.program_id
    }

    /// Where the record lies: the address derived for the program.
    pub fn address(&self) -> (a: Address)
        ensures
            a == self@.address,
            is_derived(MINT_SEED@, self@.program_id, a),
    {
        proof {
            use_type_invariant(self);
        }
        self.address
    }

    /// Decimal places of the token.
    pub fn decimals(&self) -> (d: u8)
        ensures
            d == self@.decimals,
            d == MONARCA_DECIMALS,
    {
        proof {
            use_type_invariant(self);
        }
        self.decimals
    }

    /// The identity that may increase the supply.
    pub fn mint_authority(&self) -> (a: Address)
        ensures
            a == self@.mint_authority,
    {
        self.mint_authority
    }

    /// The identity that may freeze token accounts of the mint.
    pub fn freeze_authority(&self) -> (a: Address)
        ensures
            a == self@.freeze_authority,
            a == self@.mint_authority,
    {
        proof {
            use_type_invariant(self);
        }
        self.freeze_authority
    }

    /// Tokens in circulation, in the smallest unit.
    pub fn supply(&self) -> (s: u64)
        ensures
            s == self@.supply,
    {
        self.supply
    }

    /// Replaces the supply.
    pub(crate) fn set_supply(&mut self, supply: u64)
        ensures
            final(self)@ == (MintRecordView { supply, ..old(self)@ }),
    {
        proof {
            use_type_invariant(&*self);
        }
        self.supply = supply;
    }
}

/// What the account at a mint's address holds.
pub struct MintAccountView {
    pub program_id: Address,
    pub address: Address,
    /// The record, once the mint has been initialized.
    pub record: Option<MintRecordView>,
}

impl MintAccountView {
    /// What holds of every mint account: it lies at the address derived for
    /// its program, and a record in it is the record of that address.
    pub open spec fn wf(self) -> bool {
        &&& is_derived(MINT_SEED@, self.program_id, self.address)
        &&& self.record matches Some(record) ==> {
            &&& record.wf()
            &&& record.program_id == self.program_id
            &&& record.address == self.address
        }
    }

    /// Bytes of storage that the account takes up.
    pub open spec fn space(self) -> u64 {
        if self.record is Some {
            MINT_ACCOUNT_SIZE
        } else {
            0
        }
    }
}

/// The account at the address derived for a program's mint: empty until the
/// mint is initialized, then home of its record for good.
#[derive(Clone, Copy, Debug, PartialEq, Eq)]
pub struct MintAccount {
    program_id: Address,
    address: Address,
    record: Option<MintRecord>,
}

impl View for MintAccount {
    type V = MintAccountView;

    closed spec fn view(&self) -> MintAccountView {
        MintAccountView {
            program_id: self.program_id,
            address: self.address,
            record: match self.record {
                Some(record) => Some(record@),
                None => None,
            },
        }
    }
}

impl MintAccount {
    #[verifier::type_invariant]
    spec fn inv(&self) -> bool {
        self@.wf()
    }

    /// The account of the mint of `program_id`, not yet initialized. `None`
    /// where no address can be derived for the program.
    pub fn locate(program_id: &Address) -> (r: Option<MintAccount>)
        ensures
            r matches Some(account) ==> account@ == (MintAccountView {
                program_id: *program_id,
                address: account@.address,
                record: None,
            }) && account@.wf(),
            r is Some <==> has_derived(MINT_SEED@, *program_id),
    {
        match mint_address(program_id) {
            Some(address) => Some(MintAccount { program_id: *program_id, address, record: None }),
            None => None,
        }
    }

    /// The account of the mint of `program_id` with the record that the ledger
    /// holds for it. `None` where no address can be derived for the program,
    /// and where the values are not those of a record of this mint: another
    /// precision, or two different authorities.
    pub fn existing(
        program_id: &Address,
        decimals: u8,
        mint_authority: Address,
        freeze_authority: Address,
        supply: u64,
    ) -> (r: Option<MintAccount>)
        ensures
            r is Some <==> {
                &&& has_derived(MINT_SEED@, *program_id)
                &&& decimals == MONARCA_DECIMALS
                &&& freeze_authority == mint_authority
            },
            r matches Some(account) ==> account@ == (MintAccountView {
                program_id: *program_id,
                address: account@.address,
                record: Some(
                    MintRecordView {
                        program_id: *program_id,
                        address: account@.address,
                        decimals,
                        mint_authority,
                        freeze_authority,
                        supply,
                    },
                ),
            }) && account@.wf(),
    {
        if decimals != MONARCA_DECIMALS || freeze_authority != mint_authority {
            return None;
        }
        match mint_address(program_id) {
            Some(address) => {
                let record = MintRecord {
                    program_id: *program_id,
                    address,
                    decimals,
                    mint_authority,
                    freeze_authority,
                    supply,
                };
                Some(MintAccount { program_id: *program_id, address, record: Some(record) })
            },
            None => None,
        }
    }

    /// The program that controls the mint.
    pub fn program_id(&self) -> (a: Address)
        ensures
            a == self@.program_id,
    {
        self.program_id
    }

    /// Where the account lies: the address derived for the program.
    pub fn address(&self) -> (a: Address)
        ensures
            a == self@.address,
            is_derived(MINT_SEED@, self@.program_id, a),
    {
        proof {
            use_type_invariant(self);
        }
        self.address
    }

    /// Whether the mint has been initialized.
    pub fn is_initialized(&self) -> (b: bool)
        ensures
            b == self@.record is Some,
    {
        self.record.is_some()
    }

    /// The record of the mint, once it has been initialized.
    pub fn record(&self) -> (r: Option<MintRecord>)
        ensures
            r is Some <==> self@.record is Some,
            r matches Some(record) ==> self@.record == Some(record@) && record@.wf(),
    {
        proof {
            use_type_invariant(self);
        }
        self.record
    }

    /// Bytes of storage that the account takes up.
    pub fn space(&self) -> (n: u64)
        ensures
            n == self@.space(),
    {
        if self.record.is_some() {
            MINT_ACCOUNT_SIZE
        } else {
            0
        }
    }

    /// Puts the record of a mint that `authority` has just created into the
    /// empty account.
    pub(crate) fn create_record(&mut self, authority: Address)
        requires
            old(self)@.record is None,
        ensures
            final(self)@ == (MintAccountView {
                record: Some(
                    MintRecordView::created(old(self)@.program_id, old(self)@.address, authority),
                ),
                ..old(self)@
            }),
    {
        proof {
            use_type_invariant(&*self);
        }
        let record = MintRecord {
            program_id: self.program_id,
            address: self.address,
            decimals: MONARCA_DECIMALS,
            mint_authority: authority,
            freeze_authority: authority,
            supply: 0,
        };
        self.record = Some(record);
    }
}

/// A program has one mint: two mint accounts of the same program lie at the
/// same address, and so do their records.
pub proof fn lemma_one_mint_per_program(a: MintAccountView, b: MintAccountView)
    requires
        a.wf(),
        b.wf(),
        a.program_id == b.program_id,
    ensures
        a.address == b.address,
        a.record is Some && b.record is Some ==> a.record->0.address == b.record->0.address,
{
    lemma_derivation_deterministic(
        MINT_SEED@,
        a.program_id,
        a.address,
        MINT_SEED@,
        b.program_id,
        b.address,
    );
}

} // verus!
