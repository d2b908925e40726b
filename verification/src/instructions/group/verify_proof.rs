//! The decision on a claim: accepted when enough distinct witnesses of the
//! epoch have signed it.

use crate::errors::NcashError;
use crate::state::epoch::{Epoch, EpochView};
use crate::utils::ethereum::{
    authenticates, bytes_equal, ethereum_address_bytes, parse_ethereum_address,
    signature_authenticates, valid_ethereum_address,
};
use vstd::prelude::*;
use vstd::string::StringSliceAdditionalSpecFns;
use vstd::utf8::encode_utf8;

verus! {

/// A signature over a claim, submitted under the address of a witness.
#[derive(Clone, Debug)]
pub struct Attestation {
    /// The address under which the signature is submitted.
    pub witness_address: String,
    /// The signature: 64 bytes and a recovery byte.
    pub signature: Vec<u8>,
}

/// What an attestation holds.
pub struct AttestationView {
    pub witness_address: Seq<char>,
    pub signature: Seq<u8>,
}

impl View for Attestation {
    type V = AttestationView;

    open spec fn view(&self) -> AttestationView {
        AttestationView { witness_address: self.witness_address@, signature: self.signature@ }
    }
}

/// An attestation whose signature has been checked against the claim.
#[derive(Clone, Debug)]
pub struct CheckedAttestation {
    /// The address under which the signature was submitted.
    pub witness_address: String,
    /// Whether the signature authenticates the claim under that address.
    pub authentic: bool,
}

/// What a checked attestation holds.
pub struct CheckedAttestationView {
    pub witness_address: Seq<char>,
    pub authentic: bool,
}

impl View for CheckedAttestation {
    type V = CheckedAttestationView;

    open spec fn view(&self) -> CheckedAttestationView {
        CheckedAttestationView { witness_address: self.witness_address@, authentic: self.authentic }
    }
}

/// Arguments of the verification of a claim.
#[derive(Clone, Debug)]
pub struct VerifyProofArgs {
    /// The claim payload. It is bound to a group, a dapp and a commitment
    /// root by whoever made it, and is not looked into here.
    pub claim: Vec<u8>,
    /// The attestations submitted with the claim.
    pub attestations: Vec<Attestation>,
}

/// Whether an address text names a witness of the epoch.
pub open spec fn names_witness(epoch: EpochView, address: Seq<char>) -> bool {
    &&& valid_ethereum_address(encode_utf8(address))
    &&& epoch.has_witness(ethereum_address_bytes(encode_utf8(address)))
}

impl CheckedAttestationView {
    /// The attestation counts for the witness with these 20 bytes: its
    /// signature is authentic, and its address names that witness of the
    /// epoch.
    pub open spec fn vouches_as(self, epoch: EpochView, witness: Seq<u8>) -> bool {
        &&& self.authentic
        &&& names_witness(epoch, self.witness_address)
        &&& ethereum_address_bytes(encode_utf8(self.witness_address)) == witness
    }
}

/// The witnesses of the epoch for which at least one attestation counts.
/// Being a set, it holds a witness once however often its signature was
/// submitted, and ignores the order of the attestations.
pub open spec fn vouchers(epoch: EpochView, checked: Seq<CheckedAttestationView>) -> Set<Seq<u8>> {
    Set::new(
        |witness: Seq<u8>|
            exists|i: int|
                0 <= i < checked.len() && (#[trigger] checked[i]).vouches_as(epoch, witness),
    )
}

/// The decision: accepted when the vouching witnesses are at least as many
/// as the threshold of the epoch.
pub open spec fn verdict(epoch: EpochView, checked: Seq<CheckedAttestationView>) -> Result<
    (),
    NcashError,
> {
    if vouchers(epoch, checked).len() >= epoch.minimum_witnesses_for_claim {
        Ok(())
    } else {
        Err(NcashError::InsufficientWitnesses)
    }
}

/// The views of a list of checked attestations.
pub open spec fn checked_views(checked: Seq<CheckedAttestation>) -> Seq<CheckedAttestationView> {
    checked.map_values(|c: CheckedAttestation| c@)
}

/// The views of a list of attestations.
pub open spec fn attestation_views(attestations: Seq<Attestation>) -> Seq<AttestationView> {
    attestations.map_values(|a: Attestation| a@)
}

impl AttestationView {
    /// What checking the attestation against a claim gives: its address,
    /// with whether its signature authenticates the claim under it.
    pub open spec fn checked_against(self, claim: Seq<u8>) -> CheckedAttestationView {
        CheckedAttestationView {
            witness_address: self.witness_address,
            authentic: authenticates(encode_utf8(self.witness_address), claim, self.signature),
        }
    }
}

/// What checking the attestations against a claim gives.
pub open spec fn checked_against(claim: Seq<u8>, attestations: Seq<AttestationView>) -> Seq<
    CheckedAttestationView,
> {
    attestations.map_values(|a: AttestationView| a.checked_against(claim))
}

/// The byte strings that a list holds.
pub open spec fn byte_views(items: Seq<Vec<u8>>) -> Seq<Seq<u8>> {
    items.map_values(|item: Vec<u8>| item@)
}

/// Extending the attestations by one adds its witness where it counts, and
/// nothing where it does not.
proof fn lemma_vouchers_step(epoch: EpochView, checked: Seq<CheckedAttestationView>, i: int)
    requires
        0 <= i < checked.len(),
    ensures
        vouchers(epoch, checked.take(i + 1)) == if checked[i].authentic && names_witness(
            epoch,
            checked[i].witness_address,
        ) {
            vouchers(epoch, checked.take(i)).insert(
                ethereum_address_bytes(encode_utf8(checked[i].witness_address)),
            )
        } else {
            vouchers(epoch, checked.take(i))
        },
{
    let before = checked.take(i);
    let after = checked.take(i + 1);
    let address = ethereum_address_bytes(encode_utf8(checked[i].witness_address));
    let counts = checked[i].authentic && names_witness(epoch, checked[i].witness_address);
    let expected = if counts {
        vouchers(epoch, before).insert(address)
    } else {
        vouchers(epoch, before)
    };
    assert forall|w: Seq<u8>| vouchers(epoch, after).contains(w) implies expected.contains(w) by {
        let k = choose|k: int| 0 <= k < after.len() && (#[trigger] after[k]).vouches_as(epoch, w);
        if k < i {
            assert(before[k] == after[k]);
            assert(before[k].vouches_as(epoch, w));
        } else {
            assert(after[k] == checked[i]);
        }
    }
    assert forall|w: Seq<u8>| expected.contains(w) implies vouchers(epoch, after).contains(w) by {
        if vouchers(epoch, before).contains(w) {
            let k = choose|k: int|
                0 <= k < before.len() && (#[trigger] before[k]).vouches_as(epoch, w);
            assert(after[k] == before[k]);
            assert(after[k].vouches_as(epoch, w));
        } else {
            assert(after[i] == checked[i]);
            assert(after[i].vouches_as(epoch, w));
        }
    }
    assert(vouchers(epoch, after) =~= expected);
}

/// Whether `wanted` is one of `items`.
fn contains_bytes(items: &Vec<Vec<u8>>, wanted: &Vec<u8>) -> (found: bool)
    ensures
        found == byte_views(items@).contains(wanted@),
{
    let mut i: usize = 0;
    while i < items.len()
        invariant
            i <= items.len(),
            forall|k: int| 0 <= k < i ==> byte_views(items@)[k] != wanted@,
        decreases items.len() - i,
    {
        if bytes_equal(items[i].as_slice(), wanted.as_slice()) {
            assert(byte_views(items@)[i as int] == wanted@);
            return true;
        }
        i += 1;
    }
    false
}

/// Resolves an address text to the witness of the epoch that it names, and
/// hands back the 20 bytes of the address. An address that names no witness
/// of the epoch gives `UnknownWitness`.
pub fn resolve_witness(epoch: &Epoch, address: &str) -> (resolved: Result<Vec<u8>, NcashError>)
    ensures
        match resolved {
            Ok(bytes) => names_witness(epoch@, address@) && bytes@ == ethereum_address_bytes(
                address.spec_bytes(),
            ),
            Err(e) => e == NcashError::UnknownWitness && !names_witness(epoch@, address@),
        },
{
    let wanted = match parse_ethereum_address(address) {
        Some(bytes) => bytes,
        None => {
            return Err(NcashError::UnknownWitness);
        },
    };
    let mut j: usize = 0;
    while j < epoch.witnesses.len()
        invariant
            j <= epoch.witnesses.len(),
            valid_ethereum_address(address.spec_bytes()),
            wanted@ == ethereum_address_bytes(address.spec_bytes()),
            forall|k: int|
                0 <= k < j ==> !((#[trigger] epoch@.witnesses[k]).address_valid()
                    && epoch@.witnesses[k].address_bytes() == wanted@),
        decreases epoch.witnesses.len() - j,
    {
        assert(epoch@.witnesses[j as int] == epoch.witnesses[j as int]@);
        if let Some(candidate) = parse_ethereum_address(epoch.witnesses[j].address.as_str()) {
            if bytes_equal(candidate.as_slice(), wanted.as_slice()) {
                assert(epoch@.witnesses[j as int].address_valid());
                return Ok(wanted);
            }
        }
        j += 1;
    }
    Err(NcashError::UnknownWitness)
}

/// Decides a claim from its checked attestations. An attestation counts when
/// its signature is authentic and its address names a witness of the epoch;
/// each witness counts once. The claim is accepted when the witnesses that
/// count are at least the threshold of the epoch, and is refused with
/// `InsufficientWitnesses` otherwise.
pub fn decide(epoch: &Epoch, checked: &Vec<CheckedAttestation>) -> (decision: Result<
    (),
    NcashError,
>)
    ensures
        decision == verdict(epoch@, checked_views(checked@)),
{
    let ghost all = checked_views(checked@);
    let mut counted: Vec<Vec<u8>> = Vec::new();
    let mut i: usize = 0;
    assert(vouchers(epoch@, all.take(0)) =~= Set::empty());
    assert(byte_views(counted@).to_set() =~= Set::empty());
    while i < checked.len()
        invariant
            i <= checked.len(),
            all == checked_views(checked@),
            byte_views(counted@).no_duplicates(),
            byte_views(counted@).to_set() == vouchers(epoch@, all.take(i as int)),
        decreases checked.len() - i,
    {
        let ghost before = byte_views(counted@);
        proof {
            lemma_vouchers_step(epoch@, all, i as int);
            assert(all[i as int] == checked[i as int]@);
        }
        if checked[i].authentic {
            if let Ok(witness) = resolve_witness(epoch, checked[i].witness_address.as_str()) {
                if !contains_bytes(&counted, &witness) {
                    counted.push(witness);
                    proof {
                        assert(byte_views(counted@) =~= before.push(witness@));
                        before.lemma_push_to_set_commute(witness@);
                    }
                } else {
                    assert(before.to_set().insert(witness@) =~= before.to_set());
                }
            }
        }
        i += 1;
    }
    proof {
        assert(all.take(checked.len() as int) =~= all);
        byte_views(counted@).unique_seq_to_set();
    }
    if counted.len() >= epoch.minimum_witnesses_for_claim as usize {
        Ok(())
    } else {
        Err(NcashError::InsufficientWitnesses)
    }
}

/// Checks each attestation against the claim.
pub fn check_attestations(claim: &[u8], attestations: &Vec<Attestation>) -> (checked: Vec<
    CheckedAttestation,
>)
    ensures
        checked_views(checked@) == checked_against(claim@, attestation_views(attestations@)),
{
    let mut checked: Vec<CheckedAttestation> = Vec::new();
    let mut i: usize = 0;
    while i < attestations.len()
        invariant
            i <= attestations.len(),
            checked@.len() == i,
            forall|k: int|
                0 <= k < i ==> (#[trigger] checked@[k])@ == attestations@[k]@.checked_against(
                    claim@,
                ),
        decreases attestations.len() - i,
    {
        let attestation = &attestations[i];
        let authentic = signature_authenticates(
            attestation.witness_address.as_str(),
            claim,
            attestation.signature.as_slice(),
        );
        checked.push(
            CheckedAttestation { witness_address: attestation.witness_address.clone(), authentic },
        );
        i += 1;
    }
    assert(checked_views(checked@) =~= checked_against(claim@, attestation_views(attestations@)));
    checked
}

/// Verifies a claim against the active epoch: checks the signature of each
/// attestation, then decides. Nothing is changed.
pub fn verify(epoch: &Epoch, args: &VerifyProofArgs) -> (decision: Result<(), NcashError>)
    ensures
        decision == verdict(
            epoch@,
            checked_against(args.claim@, attestation_views(args.attestations@)),
        ),
{
    let checked = check_attestations(args.claim.as_slice(), &args.attestations);
    decide(epoch, &checked)
}

} // verus!
