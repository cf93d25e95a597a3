//! A time-locked fund release mechanism: deposits are appended with an unlock
//! timestamp, the admin designates one beneficiary per deposit index, and the
//! beneficiary may withdraw once the clock reaches the unlock time. The token
//! movements themselves are the host's: a withdrawal hands back the amount
//! the host must transfer.

use vstd::prelude::*;

use crate::errors::GovError;
use crate::keyed::{map_of, unique_keys, lemma_map_of_contains, lemma_map_of_index,
    lemma_map_of_push, lemma_map_of_update, lemma_map_of_remove};

verus! {

/// One locked deposit. A withdrawal removes the record, shifting every later
/// record down one index — beneficiary designations for those indices are not
/// re-pointed, exactly as the stored map leaves them.
#[derive(Clone, Copy, Debug, PartialEq, Eq, Structural)]
pub struct DepositRecord {
    /// Identity the host transferred the locked tokens from.
    pub depositor: u64,
    /// The locked amount, always positive.
    pub amount: i64,
    /// Withdrawal is accepted at clock readings at or past this.
    pub unlock_timestamp: u64,
}

/// The mathematical model of the vault: the ordered deposit store and the
/// beneficiary designated for each deposit index, where one is.
#[verifier::ext_equal]
pub ghost struct VaultModel {
    /// Address of the token the host moves on deposit and withdrawal.
    pub token: u64,
    /// The single identity allowed to designate beneficiaries.
    pub admin: u64,
    pub deposits: Seq<DepositRecord>,
    pub beneficiaries: Map<u32, u64>,
}

/// Outcome of depositing at clock reading `now`: the amount must be positive
/// and the unlock time strictly in the future; the record is appended at the
/// next sequential index.
pub open spec fn deposit_outcome(
    v: VaultModel,
    from: u64,
    amount: i64,
    unlock_timestamp: u64,
    now: u64,
) -> Result<VaultModel, GovError> {
    if amount <= 0 {
        Err(GovError::InvalidArgument)
    } else if unlock_timestamp <= now {
        Err(GovError::InvalidArgument)
    } else {
        Ok(
            VaultModel {
                deposits: v.deposits.push(
                    DepositRecord { depositor: from, amount, unlock_timestamp },
                ),
                ..v
            },
        )
    }
}

/// Outcome of designating `beneficiary` for a deposit index: only the admin
/// may designate, the deposit must exist, and designating again overwrites.
pub open spec fn add_beneficiary_outcome(
    v: VaultModel,
    admin: u64,
    beneficiary: u64,
    deposit_index: u32,
) -> Result<VaultModel, GovError> {
    if admin != v.admin {
        Err(GovError::Unauthorized)
    } else if deposit_index >= v.deposits.len() {
        Err(GovError::NotFound)
    } else {
        Ok(VaultModel { beneficiaries: v.beneficiaries.insert(deposit_index, beneficiary), ..v })
    }
}

/// Outcome of withdrawing at clock reading `now`: the deposit and its
/// beneficiary designation must exist, the caller must be that beneficiary,
/// and the unlock time must have been reached. The record and its designation
/// are removed, and the amount the host must transfer is handed back.
pub open spec fn withdraw_outcome(v: VaultModel, beneficiary: u64, deposit_index: u32, now: u64) -> Result<
    (VaultModel, i64),
    GovError,
> {
    if deposit_index >= v.deposits.len() {
        Err(GovError::NotFound)
    } else if !v.beneficiaries.contains_key(deposit_index) {
        Err(GovError::NotFound)
    } else if v.beneficiaries[deposit_index] != beneficiary {
        Err(GovError::Unauthorized)
    } else if now < v.deposits[deposit_index as int].unlock_timestamp {
        Err(GovError::WindowOpen)
    } else {
        Ok(
            (
                VaultModel {
                    deposits: v.deposits.remove(deposit_index as int),
                    beneficiaries: v.beneficiaries.remove(deposit_index),
                    ..v
                },
                v.deposits[deposit_index as int].amount,
            ),
        )
    }
}

/// The index of the entry designating a beneficiary for `deposit_index`, if
/// any.
fn find_beneficiary(entries: &Vec<(u32, u64)>, deposit_index: u32) -> (found: Option<usize>)
    ensures
        match found {
            Some(i) => i < entries@.len() && entries@[i as int].0 == deposit_index,
            None => forall|j: int|
                0 <= j < entries@.len() ==> (#[trigger] entries@[j]).0 != deposit_index,
        },
{
    let mut i: usize = 0;
    while i < entries.len()
        invariant
            0 <= i <= entries@.len(),
            forall|j: int| 0 <= j < i ==> (#[trigger] entries@[j]).0 != deposit_index,
        decreases entries@.len() - i,
    {
        if entries[i].0 == deposit_index {
            return Some(i);
        }
        i += 1;
    }
    None
}

/// The vault state: the deposit store, the beneficiary designations and the
/// configuration fixed at initialization. The host environment persists a
/// value of this type between calls, performs the token transfers, and passes
/// the clock reading in as a plain argument.
pub struct TimeLockedVault {
    token: u64,
    admin: u64,
    deposits: Vec<DepositRecord>,
    beneficiaries: Vec<(u32, u64)>,
}

impl View for TimeLockedVault {
    type V = VaultModel;

    closed spec fn view(&self) -> VaultModel {
        VaultModel {
            token: self.token,
            admin: self.admin,
            deposits: self.deposits@,
            beneficiaries: map_of(self.beneficiaries@),
        }
    }
}

impl TimeLockedVault {
    /// Internal representation invariant: at most one designation per deposit
    /// index.
    pub closed spec fn inv(&self) -> bool {
        unique_keys(self.beneficiaries@)
    }

    /// Sets up a fresh vault for the given token under the given admin, with
    /// no deposits and no designations. Setup never fails.
    pub fn initialize(token: u64, admin: u64) -> (vault: Self)
        ensures
            vault.inv(),
            vault@ == (VaultModel {
                token,
                admin,
                deposits: Seq::<DepositRecord>::empty(),
                beneficiaries: Map::<u32, u64>::empty(),
            }),
    {
        let vault = TimeLockedVault {
            token,
            admin,
            deposits: Vec::new(),
            beneficiaries: Vec::new(),
        };
        proof {
            assert(vault@.deposits =~= Seq::<DepositRecord>::empty());
            assert(vault@.beneficiaries =~= Map::<u32, u64>::empty());
        }
        vault
    }

    /// Records a deposit made at clock reading `now`; the host transfers the
    /// amount into the vault's custody alongside this call. Fails with
    /// `InvalidArgument` — appending nothing — when the amount is not
    /// positive or the unlock time is not strictly in the future.
    pub fn deposit(&mut self, from: u64, amount: i64, unlock_timestamp: u64, now: u64) -> (result:
        Result<(), GovError>)
        requires
            old(self).inv(),
        ensures
            final(self).inv(),
            match result {
                Ok(()) => deposit_outcome(old(self)@, from, amount, unlock_timestamp, now) == Ok::<
                    VaultModel,
                    GovError,
                >(final(self)@),
                Err(e) => final(self)@ == old(self)@ && deposit_outcome(
                    old(self)@,
                    from,
                    amount,
                    unlock_timestamp,
                    now,
                ) == Err::<VaultModel, GovError>(e),
            },
    {
        if amount <= 0 {
            return Err(GovError::InvalidArgument);
        }
        if unlock_timestamp <= now {
            return Err(GovError::InvalidArgument);
        }
        self.deposits.push(DepositRecord { depositor: from, amount, unlock_timestamp });
        proof {
            assert(self@ =~~= VaultModel {
                deposits: old(self)@.deposits.push(
                    DepositRecord { depositor: from, amount, unlock_timestamp },
                ),
                ..old(self)@
            });
        }
        Ok(())
    }

    /// Designates `beneficiary` as the one identity allowed to withdraw the
    /// deposit at `deposit_index`; designating again overwrites. Fails with
    /// `Unauthorized` unless `admin` is the configured admin and with
    /// `NotFound` when the index is out of bounds.
    pub fn add_beneficiary(&mut self, admin: u64, beneficiary: u64, deposit_index: u32) -> (result:
        Result<(), GovError>)
        requires
            old(self).inv(),
        ensures
            final(self).inv(),
            match result {
                Ok(()) => add_beneficiary_outcome(old(self)@, admin, beneficiary, deposit_index)
                    == Ok::<VaultModel, GovError>(final(self)@),
                Err(e) => final(self)@ == old(self)@ && add_beneficiary_outcome(
                    old(self)@,
                    admin,
                    beneficiary,
                    deposit_index,
                ) == Err::<VaultModel, GovError>(e),
            },
    {
        if admin != self.admin {
            return Err(GovError::Unauthorized);
        }
        let idx = deposit_index as usize;
        if idx >= self.deposits.len() {
            return Err(GovError::NotFound);
        }
        match find_beneficiary(&self.beneficiaries, deposit_index) {
            Some(i) => {
                let e = &mut self.beneficiaries[i];
                *e = (deposit_index, beneficiary);
                proof {
                    lemma_map_of_update(old(self).beneficiaries@, i as int, beneficiary);
                }
            },
            None => {
                proof {
                    lemma_map_of_contains(self.beneficiaries@, deposit_index);
                    lemma_map_of_push(self.beneficiaries@, deposit_index, beneficiary);
                }
                self.beneficiaries.push((deposit_index, beneficiary));
            },
        }
        proof {
            assert(self@.beneficiaries =~= old(self)@.beneficiaries.insert(
                deposit_index,
                beneficiary,
            ));
            assert(self@ =~~= VaultModel {
                beneficiaries: old(self)@.beneficiaries.insert(deposit_index, beneficiary),
                ..old(self)@
            });
        }
        Ok(())
    }

    /// Releases the deposit at `deposit_index` to its designated beneficiary
    /// once the unlock time has been reached, removing the record and its
    /// designation; the host transfers the returned amount to the
    /// beneficiary. Fails with `NotFound` when the deposit or its designation
    /// does not exist, `Unauthorized` when the caller is not the designated
    /// beneficiary, and `WindowOpen` while the clock reads strictly before
    /// the unlock time.
    pub fn withdraw(&mut self, beneficiary: u64, deposit_index: u32, now: u64) -> (result: Result<
        i64,
        GovError,
    >)
        requires
            old(self).inv(),
        ensures
            final(self).inv(),
            match result {
                Ok(amount) => withdraw_outcome(old(self)@, beneficiary, deposit_index, now) == Ok::<
                    (VaultModel, i64),
                    GovError,
                >((final(self)@, amount)),
                Err(e) => final(self)@ == old(self)@ && withdraw_outcome(
                    old(self)@,
                    beneficiary,
                    deposit_index,
                    now,
                ) == Err::<(VaultModel, i64), GovError>(e),
            },
    {
        let idx = deposit_index as usize;
        if idx >= self.deposits.len() {
            return Err(GovError::NotFound);
        }
        let i = match find_beneficiary(&self.beneficiaries, deposit_index) {
            Some(i) => i,
            None => {
                proof {
                    lemma_map_of_contains(self.beneficiaries@, deposit_index);
                }
                return Err(GovError::NotFound);
            },
        };
        proof {
            lemma_map_of_index(self.beneficiaries@, i as int);
        }
        if self.beneficiaries[i].1 != beneficiary {
            return Err(GovError::Unauthorized);
        }
        if now < self.deposits[idx].unlock_timestamp {
            return Err(GovError::WindowOpen);
        }
        let amount = self.deposits[idx].amount;
        self.deposits.remove(idx);
        proof {
            lemma_map_of_remove(self.beneficiaries@, i as int);
        }
        self.beneficiaries.remove(i);
        proof {
            assert(self@.beneficiaries =~= old(self)@.beneficiaries.remove(deposit_index));
            assert(self@ =~~= VaultModel {
                deposits: old(self)@.deposits.remove(deposit_index as int),
                beneficiaries: old(self)@.beneficiaries.remove(deposit_index),
                ..old(self)@
            });
        }
        Ok(amount)
    }

    /// Reads the full record at `deposit_index`; fails with `NotFound` when
    /// the index is out of the store's current bounds.
    pub fn get_deposit(&self, deposit_index: u32) -> (result: Result<DepositRecord, GovError>)
        ensures
            match result {
                Ok(d) => deposit_index < self@.deposits.len() && d == self@.deposits[
                    deposit_index as int
                ],
                Err(e) => deposit_index >= self@.deposits.len() && e == GovError::NotFound,
            },
    {
        let idx = deposit_index as usize;
        if idx >= self.deposits.len() {
            return Err(GovError::NotFound);
        }
        Ok(self.deposits[idx])
    }

    /// The beneficiary designated for `deposit_index`; fails with `NotFound`
    /// where none was designated.
    pub fn get_beneficiary(&self, deposit_index: u32) -> (result: Result<u64, GovError>)
        requires
            self.inv(),
        ensures
            match result {
                Ok(b) => self@.beneficiaries.contains_key(deposit_index) && b
                    == self@.beneficiaries[deposit_index],
                Err(e) => !self@.beneficiaries.contains_key(deposit_index) && e
                    == GovError::NotFound,
            },
    {
        match find_beneficiary(&self.beneficiaries, deposit_index) {
            Some(i) => {
                proof {
                    lemma_map_of_index(self.beneficiaries@, i as int);
                }
                Ok(self.beneficiaries[i].1)
            },
            None => {
                proof {
                    lemma_map_of_contains(self.beneficiaries@, deposit_index);
                }
                Err(GovError::NotFound)
            },
        }
    }
}

} // verus!
