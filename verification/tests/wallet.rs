use incrementalmerkletree::Position;
use orchard::keys::{FullViewingKey, SpendingKey};
use orchard::note::{RandomSeed, Rho};
use zcash_note_encryption::EphemeralKeyBytes;
use zcash_protocol::consensus::BlockHeight;
use zcash_protocol::value::Zatoshis;
use zcash_protocol::TxId;
use zcash_transparent::address::{Script, TransparentAddress};
use zcash_transparent::bundle::{OutPoint, TxOut};
use zcash_transparent::keys::{NonHardenedChildIndex, TransparentKeyScope};
use zip32::Scope;

use zcash_wallet::address::UnifiedAddress;
use zcash_wallet::fees::InputView;
use zcash_wallet::protocol::{PoolType, ShieldedProtocol, MAX_MONEY};
use zcash_wallet::wallet::{
    note_value_amount, Note, NoteId, OvkPolicy, ReceivedNote, Recipient,
    TransparentAddressMetadata, WalletOutput, WalletSaplingOutput, WalletSpend, WalletTransparentOutput,
    WalletTx,
};

fn txid(b: u8) -> TxId {
    TxId::from_bytes([b; 32])
}

fn sapling_address() -> sapling_crypto::PaymentAddress {
    let sk = sapling_crypto::zip32::ExtendedSpendingKey::master(&[7u8; 32]).unwrap();
    sk.default_address().1
}

fn sapling_note(value: u64) -> sapling_crypto::Note {
    sapling_crypto::Note::from_parts(
        sapling_address(),
        sapling_crypto::value::NoteValue::from_raw(value),
        sapling_crypto::Rseed::AfterZip212([3u8; 32]),
    )
}

fn orchard_address() -> orchard::Address {
    let sk = SpendingKey::from_bytes([5u8; 32]).unwrap();
    FullViewingKey::from(&sk).address_at(0u32, Scope::External)
}

fn orchard_note(value: u64) -> orchard::Note {
    let rho = Rho::from_bytes(&[0u8; 32]).unwrap();
    for seed in 0u8..=255 {
        let rseed = RandomSeed::from_bytes([seed; 32], &rho);
        if bool::from(rseed.is_some()) {
            let note = orchard::Note::from_parts(
                orchard_address(),
                orchard::value::NoteValue::from_raw(value),
                rho,
                rseed.unwrap(),
                orchard::note::NoteVersion::V2,
            );
            if bool::from(note.is_some()) {
                return note.unwrap();
            }
        }
    }
    panic!("no valid note seed found");
}

fn p2pkh_txout(value: u64) -> (TxOut, TransparentAddress) {
    let addr = TransparentAddress::PublicKeyHash([9u8; 20]);
    let script = Script::from(&addr.script());
    (TxOut::new(Zatoshis::from_u64(value).unwrap(), script), addr)
}

fn op_return_txout() -> TxOut {
    // An 8-byte value of zero followed by a script of one byte, OP_RETURN.
    let bytes = [0u8, 0, 0, 0, 0, 0, 0, 0, 1, 0x6a];
    TxOut::read(&mut &bytes[..]).unwrap()
}

#[test]
fn max_money_matches_protocol() {
    assert_eq!(MAX_MONEY, zcash_protocol::value::MAX_MONEY);
    assert_eq!(MAX_MONEY, 2_100_000_000_000_000);
}

#[test]
fn note_id_keeps_its_parts() {
    let id = NoteId::new(txid(1), ShieldedProtocol::Orchard, 7);
    assert_eq!(id.txid(), &txid(1));
    assert_eq!(id.protocol(), ShieldedProtocol::Orchard);
    assert_eq!(id.output_index(), 7);
    let other = NoteId::new(txid(1), ShieldedProtocol::Sapling, 7);
    assert_ne!(id, other);
    assert_eq!(id, NoteId::new(txid(1), ShieldedProtocol::Orchard, 7));
    assert_ne!(id, NoteId::new(txid(2), ShieldedProtocol::Orchard, 7));
    assert_ne!(id, NoteId::new(txid(1), ShieldedProtocol::Orchard, 8));
}

#[test]
fn map_internal_account_note_maps_only_the_note() {
    let r: Recipient<u32, u64> = Recipient::InternalAccount(3, 5);
    let m = r.map_internal_account_note(|n| n * 10);
    assert!(matches!(m, Recipient::InternalAccount(3, 50)));

    let addr = TransparentAddress::ScriptHash([2u8; 20]);
    let t: Recipient<u32, u64> = Recipient::Transparent(addr);
    let m = t.map_internal_account_note(|n| n * 10);
    assert!(matches!(m, Recipient::Transparent(a) if a == addr));

    let ua = UnifiedAddress::from_receivers(Some(orchard_address()), None, None).unwrap();
    let u: Recipient<u32, u64> = Recipient::Unified(ua.clone(), PoolType::Shielded(ShieldedProtocol::Orchard));
    match u.map_internal_account_note(|n| n + 1) {
        Recipient::Unified(ua2, p) => {
            assert_eq!(ua2, ua);
            assert_eq!(p, PoolType::Shielded(ShieldedProtocol::Orchard));
        }
        _ => panic!("variant changed"),
    }

    let s: Recipient<u32, u64> = Recipient::Sapling(sapling_address());
    assert!(matches!(s.map_internal_account_note(|n| n + 1), Recipient::Sapling(_)));
}

#[test]
fn map_internal_account_note_with_identity_is_identity() {
    let r: Recipient<u32, &str> = Recipient::InternalAccount(8, "note");
    assert!(matches!(r.map_internal_account_note(|n| n), Recipient::InternalAccount(8, "note")));
}

#[test]
fn transpose_option_of_internal_account() {
    let r: Recipient<u32, Option<u8>> = Recipient::InternalAccount(1, Some(4));
    assert!(matches!(r.internal_account_note_transpose_option(), Some(Recipient::InternalAccount(1, 4))));
    let r: Recipient<u32, Option<u8>> = Recipient::InternalAccount(1, None);
    assert!(r.internal_account_note_transpose_option().is_none());
    let addr = TransparentAddress::PublicKeyHash([1u8; 20]);
    let r: Recipient<u32, Option<u8>> = Recipient::Transparent(addr);
    assert!(matches!(r.internal_account_note_transpose_option(), Some(Recipient::Transparent(a)) if a == addr));
}

#[test]
fn transpose_undoes_wrapping_in_some() {
    let r: Recipient<u32, u16> = Recipient::InternalAccount(2, 11);
    let wrapped = r.map_internal_account_note(Some);
    assert!(matches!(wrapped.internal_account_note_transpose_option(), Some(Recipient::InternalAccount(2, 11))));
}

#[test]
fn wallet_tx_keeps_its_parts() {
    let spend: WalletSpend<sapling_crypto::Nullifier, u32> =
        WalletSpend::from_parts(2, sapling_crypto::Nullifier([4u8; 32]), 9);
    let tx: WalletTx<u32> = WalletTx::new(txid(3), 5, vec![spend], vec![], vec![], vec![]);
    assert_eq!(tx.txid(), txid(3));
    assert_eq!(tx.block_index(), 5);
    assert_eq!(tx.sapling_spends().len(), 1);
    assert_eq!(tx.sapling_spends()[0].index(), 2);
    assert_eq!(tx.sapling_spends()[0].nf(), &sapling_crypto::Nullifier([4u8; 32]));
    assert_eq!(*tx.sapling_spends()[0].account_id(), 9);
    assert!(tx.sapling_outputs().is_empty());
    assert!(tx.orchard_spends().is_empty());
    assert!(tx.orchard_outputs().is_empty());
}

#[test]
fn wallet_spend_keeps_its_parts() {
    let s = WalletSpend::from_parts(17, [1u8, 2, 3], "account");
    assert_eq!(s.index(), 17);
    assert_eq!(s.nf(), &[1u8, 2, 3]);
    assert_eq!(*s.account_id(), "account");
}

#[test]
fn transparent_output_from_p2pkh() {
    let (txout, addr) = p2pkh_txout(1234);
    let outpoint = OutPoint::new([6u8; 32], 1);
    let o = WalletTransparentOutput::from_parts(outpoint.clone(), txout.clone(), BlockHeight::from_u32(100))
        .expect("a P2PKH output pays to an address");
    assert_eq!(o.outpoint(), &outpoint);
    assert_eq!(o.txout(), &txout);
    assert_eq!(o.height(), BlockHeight::from_u32(100));
    assert_eq!(o.recipient_address(), &addr);
    assert_eq!(o.value(), Zatoshis::from_u64(1234).unwrap());
}

#[test]
fn transparent_output_without_address() {
    let txout = op_return_txout();
    let o = WalletTransparentOutput::from_parts(OutPoint::new([6u8; 32], 0), txout, BlockHeight::from_u32(1));
    assert!(o.is_none());
}

#[test]
fn transparent_output_from_parts_and_recipient() {
    let none = WalletTransparentOutput::from_parts_and_recipient(
        OutPoint::new([1u8; 32], 0), op_return_txout(), BlockHeight::from_u32(2), None);
    assert!(none.is_none());
    let (txout, addr) = p2pkh_txout(5);
    assert_eq!(txout.recipient_address(), Some(addr));
    let some = WalletTransparentOutput::from_parts_and_recipient(
        OutPoint::new([1u8; 32], 0), txout, BlockHeight::from_u32(2), Some(addr)).unwrap();
    assert_eq!(some.recipient_address(), &addr);
}

#[test]
fn transparent_output_from_raw_p2pkh_script() {
    let mut bytes = vec![0xe8u8, 0x03, 0, 0, 0, 0, 0, 0, 25, 0x76, 0xa9, 0x14];
    bytes.extend_from_slice(&[0u8; 20]);
    bytes.extend_from_slice(&[0x88, 0xac]);
    let txout = TxOut::read(&mut &bytes[..]).unwrap();
    let o = WalletTransparentOutput::from_parts(OutPoint::new([1u8; 32], 2), txout.clone(), BlockHeight::from_u32(10))
        .unwrap();
    assert_eq!(o.recipient_address(), &TransparentAddress::PublicKeyHash([0u8; 20]));
    assert_eq!(o.height(), BlockHeight::from_u32(10));
    assert_eq!(o.value(), Zatoshis::from_u64(1000).unwrap());
    assert_eq!(o.outpoint(), &OutPoint::new([1u8; 32], 2));
    assert_eq!(o.value(), o.txout().value());
    assert_eq!(o.clone(), o);
}

#[test]
fn wallet_output_keeps_its_parts() {
    let out: WalletSaplingOutput<u32> = WalletOutput::from_parts(
        3,
        EphemeralKeyBytes([8u8; 32]),
        sapling_note(77),
        true,
        Position::from(42u64),
        Some(sapling_crypto::Nullifier([2u8; 32])),
        12,
        Some(Scope::Internal),
    );
    assert_eq!(out.index(), 3);
    assert_eq!(out.ephemeral_key().0, [8u8; 32]);
    assert_eq!(out.note(), &sapling_note(77));
    assert!(out.is_change());
    assert_eq!(out.note_commitment_tree_position(), Position::from(42u64));
    assert_eq!(out.nf(), Some(&sapling_crypto::Nullifier([2u8; 32])));
    assert_eq!(*out.account_id(), 12);
    assert_eq!(out.recipient_key_scope(), Some(Scope::Internal));

    let no_nf: WalletOutput<u8, u8, u8> =
        WalletOutput::from_parts(0, EphemeralKeyBytes([0u8; 32]), 1, false, Position::from(0u64), None, 2, None);
    assert_eq!(no_nf.nf(), None);
    assert_eq!(no_nf.recipient_key_scope(), None);
}

#[test]
fn note_value_amount_bounds() {
    assert_eq!(note_value_amount(0), Some(Zatoshis::ZERO));
    assert_eq!(note_value_amount(MAX_MONEY), Some(Zatoshis::from_u64(MAX_MONEY).unwrap()));
    assert_eq!(note_value_amount(MAX_MONEY + 1), None);
    assert_eq!(note_value_amount(u64::MAX), None);
}

#[test]
fn note_value_and_protocol() {
    let s = Note::Sapling(sapling_note(1000));
    assert_eq!(s.value(), Zatoshis::from_u64(1000).unwrap());
    assert_eq!(s.checked_value(), Some(Zatoshis::from_u64(1000).unwrap()));
    assert_eq!(s.protocol(), ShieldedProtocol::Sapling);
    let o = Note::Orchard(orchard_note(2500));
    assert_eq!(o.value(), Zatoshis::from_u64(2500).unwrap());
    assert_eq!(o.checked_value(), Some(Zatoshis::from_u64(2500).unwrap()));
    assert_eq!(o.protocol(), ShieldedProtocol::Orchard);
    assert_eq!(s.value().into_u64(), 1000);
    assert_eq!(o.value().into_u64(), 2500);
    let top = Note::Sapling(sapling_note(MAX_MONEY));
    assert_eq!(top.value(), Zatoshis::from_u64(MAX_MONEY).unwrap());
    let big = Note::Sapling(sapling_note(MAX_MONEY + 1));
    assert_eq!(big.checked_value(), None);
}

fn received<N>(note: N) -> ReceivedNote<u64, N> {
    ReceivedNote::from_parts(99, txid(4), 2, note, Scope::External, Position::from(10u64))
}

#[test]
fn received_note_keeps_its_parts() {
    let r = received("n");
    assert_eq!(*r.internal_note_id(), 99);
    assert_eq!(r.txid(), &txid(4));
    assert_eq!(r.output_index(), 2);
    assert_eq!(*r.note(), "n");
    assert_eq!(r.spending_key_scope(), Scope::External);
    assert_eq!(r.note_commitment_tree_position(), Position::from(10u64));
}

#[test]
fn traverse_opt_replaces_the_note_or_fails() {
    let r = received(21u32);
    let t = r.clone().traverse_opt(|n| Some(n * 2)).unwrap();
    assert_eq!(*t.note(), 42u32);
    assert_eq!(*t.internal_note_id(), 99);
    assert_eq!(t.txid(), &txid(4));
    assert_eq!(t.output_index(), 2);
    assert_eq!(t.spending_key_scope(), Scope::External);
    assert_eq!(t.note_commitment_tree_position(), Position::from(10u64));
    assert!(r.clone().traverse_opt(|_| None::<u8>).is_none());
    assert_eq!(r.clone().traverse_opt(Some), Some(r));
}

#[test]
fn received_note_input_view() {
    let s = received(sapling_note(300));
    assert_eq!(*InputView::note_id(&s), 99);
    assert_eq!(InputView::value(&s), Zatoshis::from_u64(300).unwrap());
    assert_eq!(InputView::checked_value(&s), Some(Note::Sapling(sapling_note(300)).value()));
    let o = received(orchard_note(400));
    assert_eq!(*InputView::note_id(&o), 99);
    assert_eq!(InputView::value(&o), Zatoshis::from_u64(400).unwrap());
    assert_eq!(InputView::checked_value(&o), Some(Note::Orchard(orchard_note(400)).value()));
    let big = received(orchard_note(MAX_MONEY + 5));
    assert_eq!(InputView::checked_value(&big), None);
}

#[test]
fn ovk_policy_from_common_bytes() {
    let key = [0x5au8; 32];
    match OvkPolicy::custom_from_common_bytes(&key) {
        OvkPolicy::Custom { sapling, orchard } => {
            assert_eq!(sapling.0, key);
            assert_eq!(orchard.as_ref(), &key);
        }
        _ => panic!("expected a custom policy"),
    }
    match OvkPolicy::custom_from_common_bytes(&[7u8; 32]) {
        OvkPolicy::Custom { sapling, orchard } => {
            assert_eq!(sapling.0, [7u8; 32]);
            assert_eq!(orchard.as_ref(), &[7u8; 32]);
        }
        _ => panic!("expected a custom policy"),
    }
}

#[test]
fn transparent_address_metadata_keeps_its_parts() {
    let index = NonHardenedChildIndex::from_index(5).unwrap();
    let m = TransparentAddressMetadata::new(TransparentKeyScope::INTERNAL, index);
    assert_eq!(m.scope(), TransparentKeyScope::INTERNAL);
    assert_eq!(m.address_index(), index);
}

#[test]
fn unified_address_needs_a_shielded_receiver() {
    let t = TransparentAddress::PublicKeyHash([3u8; 20]);
    assert!(UnifiedAddress::from_receivers(None, None, Some(t)).is_none());
    let ua = UnifiedAddress::from_receivers(None, Some(sapling_address()), Some(t)).unwrap();
    assert!(ua.orchard().is_none());
    assert!(ua.sapling().is_some());
    assert_eq!(ua.transparent(), Some(&t));
}
