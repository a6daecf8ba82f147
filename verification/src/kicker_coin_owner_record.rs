//! Escrow ledger: the `KickerCoinOwnerRecord` between a kicker and a
//! coordinator.

use crate::addresses::pda_of;
use crate::addresses::spec_id_seed;
use crate::addresses::spec_program_authority_seed;
use crate::addresses::id_seed;
use crate::addresses::program_authority_seed;
use crate::addresses::try_find_record_address;
use crate::enums::ShihonAccountType;
use crate::error::ShihonError;
use vstd::prelude::*;

verus! {

/// Pending or accepted transfer of intent between a kicker and the
/// coordinator the KickerCoin was thrown at.  At most one live record exists
/// per ordered pair; `is_kick_off` flips false to true exactly once when the
/// coordinator approves, and a denied record is removed with its escrow
/// refunded.
#[derive(Debug)]
pub struct KickerCoinOwnerRecord {
    /// Account type discriminator.
    pub account_type: ShihonAccountType,
    /// KickerCoin holder: the first kicker, or a crown kicking onward.
    pub kicker_coin_holder: u64,
    /// The coordinator who received the KickerCoin.
    pub coordinator: u64,
    /// The escrowed amount, locked until the record resolves.
    pub amount_of_kicker_coin: u64,
    /// The kicker's content token the coin was thrown with.
    pub bc_token_name: String,
    /// Whether the coordinator approved the KickerCoin.  Created false;
    /// never reverts once set.
    pub is_kick_off: bool,
}

impl KickerCoinOwnerRecord {
    /// Shape every escrow record keeps: its own discriminator and distinct
    /// parties — a kicker cannot coordinate their own ring.
    pub open spec fn wf(self) -> bool {
        &&& self.account_type == ShihonAccountType::KickerCoinOwnerRecord
        &&& self.kicker_coin_holder != self.coordinator
        &&& self.bc_token_name@.len() > 0
    }

    /// An escrow record is initialized once it carries its own discriminator.
    pub fn is_initialized(&self) -> (r: bool)
        ensures
            r == (self.account_type == ShihonAccountType::KickerCoinOwnerRecord),
    {
        self.account_type == ShihonAccountType::KickerCoinOwnerRecord
    }

    /// Checks the KickerCoin has not kicked off yet and the transaction is
    /// signed by the KickerCoin holder.
    pub fn assert_can_kick_off(&self, signer: u64) -> (r: Result<(), ShihonError>)
        ensures
            match r {
                Ok(()) => !self.is_kick_off && signer == self.kicker_coin_holder,
                Err(e) => if self.is_kick_off {
                    e == ShihonError::KickerCoinAlreadyKickedOff
                } else {
                    signer != self.kicker_coin_holder && e
                        == ShihonError::KickerCoinHolderMustSign
                },
            },
    {
        if self.is_kick_off {
            return Err(ShihonError::KickerCoinAlreadyKickedOff);
        }
        if signer != self.kicker_coin_holder {
            return Err(ShihonError::KickerCoinHolderMustSign);
        }
        Ok(())
    }

    /// Checks the record can still be removed: only while unresolved.
    pub fn assert_can_remove_kicker_coin_owner(&self) -> (r: Result<(), ShihonError>)
        ensures
            r is Ok <==> !self.is_kick_off,
            r is Err ==> r == Err::<(), ShihonError>(ShihonError::KickerCoinAlreadyKickedOff),
    {
        if self.is_kick_off {
            return Err(ShihonError::KickerCoinAlreadyKickedOff);
        }
        Ok(())
    }
}

/// The seed list of an escrow record: tag, kicker and coordinator.
pub open spec fn spec_kicker_coin_owner_record_address_seeds(
    kicker_coin_holder: u64,
    coordinator: u64,
) -> Seq<Seq<u8>> {
    seq![
        spec_program_authority_seed(),
        spec_id_seed(kicker_coin_holder),
        spec_id_seed(coordinator),
    ]
}

/// Returns escrow record seeds.
pub fn get_kicker_coin_owner_record_address_seeds(
    kicker_coin_holder: u64,
    coordinator: u64,
) -> (r: Vec<Vec<u8>>)
    ensures
        r.deep_view() == spec_kicker_coin_owner_record_address_seeds(
            kicker_coin_holder,
            coordinator,
        ),
{
    let tag = program_authority_seed();
    let kicker_bytes = id_seed(kicker_coin_holder);
    let coordinator_bytes = id_seed(coordinator);
    let r: Vec<Vec<u8>> = vec![tag, kicker_bytes, coordinator_bytes];
    assert(r.deep_view() =~~= spec_kicker_coin_owner_record_address_seeds(
        kicker_coin_holder,
        coordinator,
    ));
    r
}

/// Returns the escrow record address.
pub fn get_kicker_coin_owner_record_address(
    program_id: &[u8; 32],
    kicker_coin_holder: u64,
    coordinator: u64,
) -> (r: Option<Vec<u8>>)
    ensures
        match r {
            Some(a) => Some(a@) == pda_of(
                program_id@,
                spec_kicker_coin_owner_record_address_seeds(kicker_coin_holder, coordinator),
            ),
            None => pda_of(
                program_id@,
                spec_kicker_coin_owner_record_address_seeds(kicker_coin_holder, coordinator),
            ) is None,
        },
{
    let seeds = get_kicker_coin_owner_record_address_seeds(kicker_coin_holder, coordinator);
    try_find_record_address(program_id, &seeds)
}

/// Law: distinct ordered pairs build distinct seed lists, so at most one
/// location exists per (kicker, coordinator) pair.
pub proof fn lemma_kicker_coin_owner_record_seeds_injective(
    k1: u64,
    c1: u64,
    k2: u64,
    c2: u64,
)
    requires
        (k1, c1) != (k2, c2),
    ensures
        spec_kicker_coin_owner_record_address_seeds(k1, c1)
            != spec_kicker_coin_owner_record_address_seeds(k2, c2),
{
    vstd::bytes::lemma_auto_spec_u64_to_from_le_bytes();
    if spec_kicker_coin_owner_record_address_seeds(k1, c1)
        == spec_kicker_coin_owner_record_address_seeds(k2, c2) {
        assert(spec_kicker_coin_owner_record_address_seeds(k1, c1)[1] == spec_id_seed(k1));
        assert(spec_kicker_coin_owner_record_address_seeds(k1, c1)[2] == spec_id_seed(c1));
    }
}

} // verus!
