//! An epoch: a set of witnesses and the number of them that a claim needs.

use crate::constants::{MAX_WITNESSES, MAX_WITNESS_ADDRESS_SIZE, MAX_WITNESS_URL_SIZE};
use crate::errors::NcashError;
use crate::utils::ethereum::{
    ethereum_address_bytes, is_valid_ethereum_address, valid_ethereum_address,
};
use vstd::prelude::*;
use vstd::utf8::encode_utf8;

verus! {

/// An attestor that may sign claims during its epoch.
#[derive(Clone, Debug)]
pub struct Witness {
    /// The address of the witness: `0x` and forty hexadecimal digits.
    pub address: String,
    /// The endpoint at which the witness is reached.
    pub url: String,
}

/// What a witness holds, as text.
pub struct WitnessView {
    pub address: Seq<char>,
    pub url: Seq<char>,
}

impl View for Witness {
    type V = WitnessView;

    open spec fn view(&self) -> WitnessView {
        WitnessView { address: self.address@, url: self.url@ }
    }
}

impl WitnessView {
    /// The address has the format of a witness address.
    pub open spec fn address_valid(self) -> bool {
        valid_ethereum_address(encode_utf8(self.address))
    }

    /// The endpoint is within its bound, counted in bytes.
    pub open spec fn url_fits(self) -> bool {
        encode_utf8(self.url).len() <= MAX_WITNESS_URL_SIZE
    }

    /// The 20 bytes that the address spells.
    pub open spec fn address_bytes(self) -> Seq<u8> {
        ethereum_address_bytes(encode_utf8(self.address))
    }

    /// The witness can be registered.
    pub open spec fn valid(self) -> bool {
        self.address_valid() && self.url_fits()
    }

    /// Why the witness cannot be registered, the address being looked at
    /// before the endpoint.
    pub open spec fn violation(self) -> Option<NcashError> {
        if !self.address_valid() {
            Some(NcashError::InvalidWitness)
        } else if !self.url_fits() {
            Some(NcashError::HostTooLong)
        } else {
            None
        }
    }
}

impl Witness {
    /// Checks the address format and the endpoint length.
    pub fn validate(&self) -> (checked: Result<(), NcashError>)
        ensures
            checked == match self@.violation() {
                Some(e) => Err::<(), NcashError>(e),
                None => Ok(()),
            },
    {
        if !is_valid_ethereum_address(self.address.as_str()) {
            return Err(NcashError::InvalidWitness);
        }
        if self.url.as_str().as_bytes().len() > MAX_WITNESS_URL_SIZE {
            return Err(NcashError::HostTooLong);
        }
        Ok(())
    }
}

/// The views of a list of witnesses.
pub open spec fn witness_views(witnesses: Seq<Witness>) -> Seq<WitnessView> {
    witnesses.map_values(|w: Witness| w@)
}

/// `i` is the position of the first witness that cannot be registered.
pub open spec fn first_invalid_at(witnesses: Seq<WitnessView>, i: int) -> bool {
    &&& 0 <= i < witnesses.len()
    &&& !witnesses[i].valid()
    &&& forall|j: int| 0 <= j < i ==> (#[trigger] witnesses[j]).valid()
}

/// Every witness of the list can be registered.
pub open spec fn all_witnesses_valid(witnesses: Seq<WitnessView>) -> bool {
    forall|i: int| 0 <= i < witnesses.len() ==> (#[trigger] witnesses[i]).valid()
}

/// A time-scoped set of witnesses with the threshold of a claim.
#[derive(Clone, Debug)]
pub struct Epoch {
    /// How many distinct witnesses must sign a claim.
    pub minimum_witnesses_for_claim: u8,
    /// The witnesses of the epoch.
    pub witnesses: Vec<Witness>,
}

/// What an epoch holds.
pub struct EpochView {
    pub minimum_witnesses_for_claim: u8,
    pub witnesses: Seq<WitnessView>,
}

impl View for Epoch {
    type V = EpochView;

    open spec fn view(&self) -> EpochView {
        EpochView {
            minimum_witnesses_for_claim: self.minimum_witnesses_for_claim,
            witnesses: witness_views(self.witnesses@),
        }
    }
}

impl EpochView {
    /// The invariant of an epoch: no more witnesses than the limit, every
    /// witness valid, and a threshold that the witnesses can meet.
    pub open spec fn valid(self) -> bool {
        &&& self.witnesses.len() <= MAX_WITNESSES
        &&& all_witnesses_valid(self.witnesses)
        &&& self.minimum_witnesses_for_claim <= self.witnesses.len()
    }

    /// Whether a witness of the epoch has the address with these 20 bytes.
    pub open spec fn has_witness(self, address: Seq<u8>) -> bool {
        exists|j: int|
            0 <= j < self.witnesses.len() && (#[trigger] self.witnesses[j]).address_valid()
                && self.witnesses[j].address_bytes() == address
    }

    /// The outcome of validation. The number of witnesses is checked first,
    /// then the witnesses in order, then the threshold; the first check that
    /// fails gives the error.
    pub open spec fn validation(self) -> Result<(), NcashError> {
        if self.witnesses.len() > MAX_WITNESSES {
            Err(NcashError::MaxWitnessesReached)
        } else if !all_witnesses_valid(self.witnesses) {
            let i = choose|i: int| first_invalid_at(self.witnesses, i);
            match self.witnesses[i].violation() {
                Some(e) => Err(e),
                None => Ok(()),
            }
        } else if self.minimum_witnesses_for_claim > self.witnesses.len() {
            Err(NcashError::InvalidWitnessClaimCount)
        } else {
            Ok(())
        }
    }
}

/// Validation succeeds exactly on the epochs that meet the invariant.
pub proof fn lemma_validation_ok_iff_valid(epoch: EpochView)
    ensures
        epoch.validation() is Ok <==> epoch.valid(),
{
    if epoch.witnesses.len() <= MAX_WITNESSES && !all_witnesses_valid(epoch.witnesses) {
        lemma_first_invalid_exists(epoch.witnesses, epoch.witnesses.len() as int);
        let i = choose|i: int| first_invalid_at(epoch.witnesses, i);
        assert(first_invalid_at(epoch.witnesses, i));
    }
}

/// Among the first `n` witnesses, if one is invalid then one is the first
/// invalid one.
proof fn lemma_first_invalid_exists(witnesses: Seq<WitnessView>, n: int)
    requires
        0 <= n <= witnesses.len(),
        exists|k: int| 0 <= k < n && !(#[trigger] witnesses[k]).valid(),
    ensures
        exists|i: int| first_invalid_at(witnesses, i),
    decreases n,
{
    if exists|k: int| 0 <= k < n - 1 && !(#[trigger] witnesses[k]).valid() {
        lemma_first_invalid_exists(witnesses, n - 1);
    } else {
        assert(first_invalid_at(witnesses, n - 1));
    }
}

/// The first invalid witness is at one position only.
proof fn lemma_first_invalid_unique(witnesses: Seq<WitnessView>, i: int, j: int)
    requires
        first_invalid_at(witnesses, i),
        first_invalid_at(witnesses, j),
    ensures
        i == j,
{
    if i < j {
        assert(witnesses[i].valid());
    } else if j < i {
        assert(witnesses[j].valid());
    }
}

impl Epoch {
    /// Bytes of a stored epoch that registers the most witnesses: 66 bytes of
    /// fixed fields, and 250 for each of `MAX_WITNESSES` witnesses.
    pub const LEN: usize = 1316;

    /// Bytes of a stored epoch that registers `witnesses`: 66 bytes of fixed
    /// fields, and for each witness its two length-prefixed strings at their
    /// bounds.
    pub fn size(witnesses: &[Witness]) -> (bytes: usize)
        requires
            66 + witnesses@.len() * 250 <= usize::MAX,
        ensures
            bytes == 66 + witnesses@.len() * 250,
            witnesses@.len() <= MAX_WITNESSES ==> bytes <= Epoch::LEN,
    {
        let witness_size: usize = (4 + MAX_WITNESS_ADDRESS_SIZE) + (4 + MAX_WITNESS_URL_SIZE);
        8 + 1 + 32 + 4 + 8 + 8 + 1 + 4 + (witnesses.len() * witness_size)
    }

    /// Checks the invariant of the epoch and reports the first check that
    /// fails.
    pub fn validate(&self) -> (checked: Result<(), NcashError>)
        ensures
            checked == self@.validation(),
            checked is Ok <==> self@.valid(),
    {
        proof {
            lemma_validation_ok_iff_valid(self@);
        }
        if self.witnesses.len() > MAX_WITNESSES as usize {
            return Err(NcashError::MaxWitnessesReached);
        }
        let mut i: usize = 0;
        while i < self.witnesses.len()
            invariant
                i <= self.witnesses.len() <= MAX_WITNESSES,
                forall|j: int| 0 <= j < i ==> (#[trigger] self@.witnesses[j]).valid(),
            decreases self.witnesses.len() - i,
        {
            let checked = self.witnesses[i].validate();
            if let Err(e) = checked {
                proof {
                    let ws = self@.witnesses;
                    assert(ws[i as int] == self.witnesses[i as int]@);
                    assert(first_invalid_at(ws, i as int));
                    let c = choose|c: int| first_invalid_at(ws, c);
                    lemma_first_invalid_unique(ws, i as int, c);
                }
                return Err(e);
            }
            assert(self@.witnesses[i as int] == self.witnesses[i as int]@);
            i += 1;
        }
        assert(all_witnesses_valid(self@.witnesses));
        if self.minimum_witnesses_for_claim as usize > self.witnesses.len() {
            return Err(NcashError::InvalidWitnessClaimCount);
        }
        Ok(())
    }
}

} // verus!
