//! The types and functions of the Zcash crates that the wallet records hold and call.
//!
//! Each type is declared opaque: a wallet record carries such a value through and
//! hands it back unchanged, and never looks inside it. Each function is a wrapper
//! whose contract Verus takes on trust; its doc comment says what it claims. What a
//! function computes from such a value is given a name, a spec function without a
//! body, which the wrapper's contract ties to its result.

use vstd::prelude::*;

use zcash_protocol::value::{BalanceError, Zatoshis};
use zcash_transparent::address::TransparentAddress;
use zcash_transparent::bundle::TxOut;

use orchard::keys::OutgoingViewingKey as OrchardOutgoingViewingKey;
use orchard::Note as OrchardNote;
use sapling_crypto::keys::OutgoingViewingKey as SaplingOutgoingViewingKey;
use sapling_crypto::Note as SaplingNote;

use crate::protocol::MAX_MONEY;

verus! {

/// A transaction identifier (`zcash_protocol::TxId`).
#[verifier::external_type_specification]
#[verifier::external_body]
pub struct ExTxId(zcash_protocol::TxId);

/// A block height (`zcash_protocol::consensus::BlockHeight`).
#[verifier::external_type_specification]
#[verifier::external_body]
pub struct ExBlockHeight(zcash_protocol::consensus::BlockHeight);

/// A non-negative amount of zatoshis (`zcash_protocol::value::Zatoshis`).
#[verifier::external_type_specification]
#[verifier::external_body]
pub struct ExZatoshis(zcash_protocol::value::Zatoshis);

/// The error of an amount out of range (`zcash_protocol::value::BalanceError`).
#[verifier::external_type_specification]
#[verifier::external_body]
pub struct ExBalanceError(zcash_protocol::value::BalanceError);

/// A transparent address (`zcash_transparent::address::TransparentAddress`).
#[verifier::external_type_specification]
#[verifier::external_body]
pub struct ExTransparentAddress(zcash_transparent::address::TransparentAddress);

/// A reference to a transparent output (`zcash_transparent::bundle::OutPoint`).
#[verifier::external_type_specification]
#[verifier::external_body]
pub struct ExOutPoint(zcash_transparent::bundle::OutPoint);

/// A transparent output (`zcash_transparent::bundle::TxOut`).
#[verifier::external_type_specification]
#[verifier::external_body]
pub struct ExTxOut(zcash_transparent::bundle::TxOut);

/// The scope of a transparent key (`zcash_transparent::keys::TransparentKeyScope`).
#[verifier::external_type_specification]
#[verifier::external_body]
pub struct ExTransparentKeyScope(zcash_transparent::keys::TransparentKeyScope);

/// A non-hardened child index (`zcash_transparent::keys::NonHardenedChildIndex`).
#[verifier::external_type_specification]
#[verifier::external_body]
pub struct ExNonHardenedChildIndex(zcash_transparent::keys::NonHardenedChildIndex);

/// A Sapling payment address (`sapling_crypto::PaymentAddress`).
#[verifier::external_type_specification]
#[verifier::external_body]
pub struct ExSaplingPaymentAddress(sapling_crypto::PaymentAddress);

/// A Sapling note (`sapling_crypto::Note`).
#[verifier::external_type_specification]
#[verifier::external_body]
pub struct ExSaplingNote(SaplingNote);

/// A Sapling nullifier (`sapling_crypto::Nullifier`).
#[verifier::external_type_specification]
#[verifier::external_body]
pub struct ExSaplingNullifier(sapling_crypto::Nullifier);

/// A Sapling outgoing viewing key (`sapling_crypto::keys::OutgoingViewingKey`).
#[verifier::external_type_specification]
#[verifier::external_body]
pub struct ExSaplingOutgoingViewingKey(sapling_crypto::keys::OutgoingViewingKey);

/// An Orchard payment address (`orchard::Address`).
#[verifier::external_type_specification]
#[verifier::external_body]
pub struct ExOrchardAddress(orchard::Address);

/// An Orchard note (`orchard::Note`).
#[verifier::external_type_specification]
#[verifier::external_body]
pub struct ExOrchardNote(OrchardNote);

/// An Orchard nullifier (`orchard::note::Nullifier`).
#[verifier::external_type_specification]
#[verifier::external_body]
pub struct ExOrchardNullifier(orchard::note::Nullifier);

/// An Orchard outgoing viewing key (`orchard::keys::OutgoingViewingKey`).
#[verifier::external_type_specification]
#[verifier::external_body]
pub struct ExOrchardOutgoingViewingKey(orchard::keys::OutgoingViewingKey);

/// The position of a leaf in a note commitment tree (`incrementalmerkletree::Position`).
#[verifier::external_type_specification]
#[verifier::external_body]
pub struct ExPosition(incrementalmerkletree::Position);

/// The bytes of an ephemeral public key (`zcash_note_encryption::EphemeralKeyBytes`).
#[verifier::external_type_specification]
#[verifier::external_body]
pub struct ExEphemeralKeyBytes(zcash_note_encryption::EphemeralKeyBytes);

/// A ZIP 32 key scope (`zip32::Scope`).
#[verifier::external_type_specification]
#[verifier::external_body]
pub struct ExScope(zip32::Scope);

/// `Clone::clone` of `sapling_crypto::PaymentAddress`, a `Copy` type whose `Clone` is
/// derived: the clone equals the original.
pub assume_specification[ <sapling_crypto::PaymentAddress as std::clone::Clone>::clone ](
    a: &sapling_crypto::PaymentAddress,
) -> (r: sapling_crypto::PaymentAddress)
    ensures
        r == *a,
;

/// `Clone::clone` of `TransparentAddress`, a `Copy` enum whose `Clone` is derived: the
/// clone equals the original.
pub assume_specification[ <TransparentAddress as std::clone::Clone>::clone ](
    a: &TransparentAddress,
) -> (r: TransparentAddress)
    ensures
        r == *a,
;

/// `Clone::clone` of `TxId`, a `Copy` type whose `Clone` is derived: the clone equals the original.
pub assume_specification[ <zcash_protocol::TxId as std::clone::Clone>::clone ](
    a: &zcash_protocol::TxId,
) -> (r: zcash_protocol::TxId)
    ensures
        r == *a,
;

/// `Clone::clone` of `BlockHeight`, a `Copy` type whose `Clone` is derived: the clone equals the original.
pub assume_specification[ <zcash_protocol::consensus::BlockHeight as std::clone::Clone>::clone ](
    a: &zcash_protocol::consensus::BlockHeight,
) -> (r: zcash_protocol::consensus::BlockHeight)
    ensures
        r == *a,
;

/// `Clone::clone` of `OutPoint`, a type whose `Clone` is derived field by field: the clone equals the original.
pub assume_specification[ <zcash_transparent::bundle::OutPoint as std::clone::Clone>::clone ](
    a: &zcash_transparent::bundle::OutPoint,
) -> (r: zcash_transparent::bundle::OutPoint)
    ensures
        r == *a,
;

/// `Clone::clone` of `TxOut`, a type whose `Clone` is derived field by field: the clone equals the original.
pub assume_specification[ <TxOut as std::clone::Clone>::clone ](
    a: &TxOut,
) -> (r: TxOut)
    ensures
        r == *a,
;

/// `Clone::clone` of `TransparentKeyScope`, a `Copy` type whose `Clone` is derived: the clone equals the original.
pub assume_specification[ <zcash_transparent::keys::TransparentKeyScope as std::clone::Clone>::clone ](
    a: &zcash_transparent::keys::TransparentKeyScope,
) -> (r: zcash_transparent::keys::TransparentKeyScope)
    ensures
        r == *a,
;

/// `Clone::clone` of `NonHardenedChildIndex`, a `Copy` type whose `Clone` is derived: the clone equals the original.
pub assume_specification[ <zcash_transparent::keys::NonHardenedChildIndex as std::clone::Clone>::clone ](
    a: &zcash_transparent::keys::NonHardenedChildIndex,
) -> (r: zcash_transparent::keys::NonHardenedChildIndex)
    ensures
        r == *a,
;

/// `Clone::clone` of `sapling_crypto::Note`, a type whose `Clone` is derived field by field: the clone equals the original.
pub assume_specification[ <SaplingNote as std::clone::Clone>::clone ](
    a: &SaplingNote,
) -> (r: SaplingNote)
    ensures
        r == *a,
;

/// `Clone::clone` of `sapling_crypto::keys::OutgoingViewingKey`, a `Copy` type whose `Clone` is derived: the clone equals the original.
pub assume_specification[ <sapling_crypto::keys::OutgoingViewingKey as std::clone::Clone>::clone ](
    a: &sapling_crypto::keys::OutgoingViewingKey,
) -> (r: sapling_crypto::keys::OutgoingViewingKey)
    ensures
        r == *a,
;

/// `Clone::clone` of `orchard::Note`, a `Copy` type whose `Clone` is derived: the clone equals the original.
pub assume_specification[ <OrchardNote as std::clone::Clone>::clone ](
    a: &OrchardNote,
) -> (r: OrchardNote)
    ensures
        r == *a,
;

/// `Clone::clone` of `orchard::keys::OutgoingViewingKey`, a type whose `Clone` is derived field by field: the clone equals the original.
pub assume_specification[ <OrchardOutgoingViewingKey as std::clone::Clone>::clone ](
    a: &OrchardOutgoingViewingKey,
) -> (r: OrchardOutgoingViewingKey)
    ensures
        r == *a,
;

/// `Clone::clone` of `incrementalmerkletree::Position`, a `Copy` type whose `Clone` is derived: the clone equals the original.
pub assume_specification[ <incrementalmerkletree::Position as std::clone::Clone>::clone ](
    a: &incrementalmerkletree::Position,
) -> (r: incrementalmerkletree::Position)
    ensures
        r == *a,
;

/// `Clone::clone` of `zip32::Scope`, a `Copy` type whose `Clone` is derived: the clone equals the original.
pub assume_specification[ <zip32::Scope as std::clone::Clone>::clone ](
    a: &zip32::Scope,
) -> (r: zip32::Scope)
    ensures
        r == *a,
;

/// The address that `TxOut::recipient_address` finds in an output's script: a function
/// of the output alone.
pub uninterp spec fn spec_txout_recipient(txout: TxOut) -> Option<TransparentAddress>;

/// The amount that `TxOut::value` reads from an output.
pub uninterp spec fn spec_txout_value(txout: TxOut) -> Zatoshis;

/// The value in zatoshis that `sapling_crypto::Note::value` gives for a note.
pub uninterp spec fn spec_sapling_note_value(note: SaplingNote) -> u64;

/// The value in zatoshis that `orchard::Note::value` gives for a note.
pub uninterp spec fn spec_orchard_note_value(note: OrchardNote) -> u64;

/// The amount that `Zatoshis::from_u64` makes of an integer in range.
pub uninterp spec fn spec_zatoshis_from_u64(amount: u64) -> Zatoshis;

/// The integer that `Zatoshis::into_u64` gives back for an amount.
pub uninterp spec fn spec_zatoshis_u64(amount: Zatoshis) -> u64;

/// The 32 bytes that a Sapling outgoing viewing key wraps (its public field `.0`).
pub uninterp spec fn spec_sapling_ovk_bytes(key: SaplingOutgoingViewingKey) -> [u8; 32];

/// The 32 bytes that `OutgoingViewingKey::as_ref` gives for an Orchard key.
pub uninterp spec fn spec_orchard_ovk_bytes(key: OrchardOutgoingViewingKey) -> [u8; 32];

/// The Sapling outgoing viewing key made of 32 bytes.
pub uninterp spec fn spec_sapling_ovk(key: [u8; 32]) -> SaplingOutgoingViewingKey;

/// The Orchard outgoing viewing key that `OutgoingViewingKey::from` makes of 32 bytes.
pub uninterp spec fn spec_orchard_ovk(key: [u8; 32]) -> OrchardOutgoingViewingKey;

/// Calls `TxOut::recipient_address`, which reads the output's script and returns the
/// address that a standard pay-to-public-key-hash or pay-to-script-hash script pays to.
/// The contract claims only that the result is a function of the output, named
/// [`spec_txout_recipient`]; how the script is decoded is left to the crate.
#[verifier::external_body]
pub(crate) fn txout_recipient_address(txout: &TxOut) -> (r: Option<TransparentAddress>)
    ensures
        r == spec_txout_recipient(*txout),
{
    txout.recipient_address()
}

/// Calls `TxOut::value`, the amount that the output carries. The contract claims that
/// the result is a function of the output, named [`spec_txout_value`].
#[verifier::external_body]
pub(crate) fn txout_value(txout: &TxOut) -> (r: Zatoshis)
    ensures
        r == spec_txout_value(*txout),
{
    txout.value()
}

/// Calls `sapling_crypto::Note::value` and `NoteValue::inner`: the value of the note in
/// zatoshis. The contract claims that the result is a function of the note, named
/// [`spec_sapling_note_value`].
#[verifier::external_body]
pub(crate) fn sapling_note_value(note: &SaplingNote) -> (r: u64)
    ensures
        r == spec_sapling_note_value(*note),
{
    note.value().inner()
}

/// Calls `orchard::Note::value` and `NoteValue::inner`: the value of the note in
/// zatoshis. The contract claims that the result is a function of the note, named
/// [`spec_orchard_note_value`].
#[verifier::external_body]
pub(crate) fn orchard_note_value(note: &OrchardNote) -> (r: u64)
    ensures
        r == spec_orchard_note_value(*note),
{
    note.value().inner()
}

/// Calls `Zatoshis::from_u64`, which succeeds exactly when the amount lies in
/// `0..=MAX_MONEY`, as its source and documentation show, with an amount that is a
/// function of the integer, named [`spec_zatoshis_from_u64`]. That amount wraps the
/// integer, which `Zatoshis::into_u64` gives back ([`spec_zatoshis_u64`]).
#[verifier::external_body]
pub(crate) fn zatoshis_from_u64(amount: u64) -> (r: Result<Zatoshis, BalanceError>)
    ensures
        r is Ok <==> amount <= MAX_MONEY,
        r matches Ok(z) ==> z == spec_zatoshis_from_u64(amount),
        r matches Ok(z) ==> spec_zatoshis_u64(z) == amount,
{
    Zatoshis::from_u64(amount)
}

/// Builds a `sapling_crypto::keys::OutgoingViewingKey` from its 32 bytes (the type is a
/// tuple struct over them): the key named [`spec_sapling_ovk`] of those bytes, whose
/// field holds them ([`spec_sapling_ovk_bytes`]).
#[verifier::external_body]
pub(crate) fn sapling_ovk_from_bytes(key: [u8; 32]) -> (r: SaplingOutgoingViewingKey)
    ensures
        r == spec_sapling_ovk(key),
        spec_sapling_ovk_bytes(r) == key,
{
    sapling_crypto::keys::OutgoingViewingKey(key)
}

/// Calls `orchard::keys::OutgoingViewingKey::from` on 32 bytes, which wraps them: the
/// key named [`spec_orchard_ovk`] of those bytes, which `as_ref` gives back
/// ([`spec_orchard_ovk_bytes`]).
#[verifier::external_body]
pub(crate) fn orchard_ovk_from_bytes(key: [u8; 32]) -> (r: OrchardOutgoingViewingKey)
    ensures
        r == spec_orchard_ovk(key),
        spec_orchard_ovk_bytes(r) == key,
{
    OrchardOutgoingViewingKey::from(key)
}

} // verus!
