//! Structs representing transaction data scanned from the block chain by a wallet or
//! light client.

use vstd::prelude::*;

use incrementalmerkletree::Position;
use zcash_note_encryption::EphemeralKeyBytes;
use zcash_protocol::consensus::BlockHeight;
use zcash_protocol::value::Zatoshis;
use zcash_protocol::TxId;
use zcash_transparent::address::TransparentAddress;
use zcash_transparent::bundle::{OutPoint, TxOut};
use zcash_transparent::keys::{NonHardenedChildIndex, TransparentKeyScope};
use zip32::Scope;

use crate::address::UnifiedAddress;
use crate::fees::InputView;
use crate::outside::{
    orchard_note_value, orchard_ovk_from_bytes, sapling_note_value, sapling_ovk_from_bytes,
    spec_orchard_note_value, spec_orchard_ovk, spec_orchard_ovk_bytes, spec_sapling_note_value,
    spec_sapling_ovk, spec_sapling_ovk_bytes, spec_txout_recipient, spec_txout_value,
    spec_zatoshis_from_u64, spec_zatoshis_u64,
    txout_recipient_address, txout_value, zatoshis_from_u64,
};
use crate::protocol::{PoolType, ShieldedProtocol, MAX_MONEY};

verus! {

/// A unique identifier for a shielded transaction output
#[derive(Debug, Copy, Clone, PartialEq, Eq, PartialOrd, Ord)]
pub struct NoteId {
    txid: TxId,
    protocol: ShieldedProtocol,
    output_index: u16,
}

impl NoteId {
    /// The ID of the transaction containing this note.
    pub closed spec fn spec_txid(&self) -> &TxId {
        &self.txid
    }

    /// The shielded protocol used by this note.
    pub closed spec fn spec_protocol(&self) -> ShieldedProtocol {
        self.protocol
    }

    /// The index of this note within its transaction's list of shielded outputs.
    pub closed spec fn spec_output_index(&self) -> u16 {
        self.output_index
    }

    /// Constructs a new `NoteId` from its parts.
    pub fn new(txid: TxId, protocol: ShieldedProtocol, output_index: u16) -> (r: Self)
        ensures
            *r.txid() == txid,
            r.protocol() == protocol,
            r.output_index() == output_index,
    {
        Self { txid, protocol, output_index }
    }

    /// Returns the ID of the transaction containing this note.
    #[verifier::when_used_as_spec(spec_txid)]
    pub fn txid(&self) -> (r: &TxId)
        ensures
            r == self.spec_txid(),
    {
        &self.txid
    }

    /// Returns the shielded protocol used by this note.
    #[verifier::when_used_as_spec(spec_protocol)]
    pub fn protocol(&self) -> (r: ShieldedProtocol)
        ensures
            r == self.spec_protocol(),
    {
        self.protocol
    }

    /// Returns the index of this note within its transaction's corresponding list of
    /// shielded outputs.
    #[verifier::when_used_as_spec(spec_output_index)]
    pub fn output_index(&self) -> (r: u16)
        ensures
            r == self.spec_output_index(),
    {
        self.output_index
    }
}


/// The parts that a `NoteId`'s accessors report are the fields it stores, which its
/// derived `Debug`, `Eq` and `Ord` read.
proof fn lemma_note_id_parts_are_fields(a: NoteId)
    ensures
        *a.txid() == a.txid,
        a.protocol() == a.protocol,
        a.output_index() == a.output_index,
{
}

/// A `NoteId` is determined by its three parts: two ids are equal exactly when their
/// transaction IDs, protocols and output indices are.
pub proof fn lemma_note_id_determined_by_parts(a: NoteId, b: NoteId)
    ensures
        a == b <==> (*a.txid() == *b.txid() && a.protocol() == b.protocol() && a.output_index()
            == b.output_index()),
{
}

/// A type that represents the recipient of a transaction output: a recipient address (and, for
/// unified addresses, the pool to which the payment is sent) in the case of an outgoing output, or an
/// internal account ID and the pool to which funds were sent in the case of a wallet-internal
/// output.
#[derive(Debug, Clone)]
pub enum Recipient<AccountId, N> {
    Transparent(TransparentAddress),
    Sapling(sapling_crypto::PaymentAddress),
    Unified(UnifiedAddress, PoolType),
    InternalAccount(AccountId, N),
}

/// `out` is `r` with the note of an internal-account recipient replaced by one that
/// `rel` relates to it, and every other recipient left as it is.
pub open spec fn maps_internal_note<AccountId, N, B>(
    r: Recipient<AccountId, N>,
    out: Recipient<AccountId, B>,
    rel: spec_fn(N, B) -> bool,
) -> bool {
    match r {
        Recipient::Transparent(t) => out == Recipient::<AccountId, B>::Transparent(t),
        Recipient::Sapling(s) => out == Recipient::<AccountId, B>::Sapling(s),
        Recipient::Unified(u, p) => out == Recipient::<AccountId, B>::Unified(u, p),
        Recipient::InternalAccount(a, n) => match out {
            Recipient::InternalAccount(a2, b) => a2 == a && rel(n, b),
            _ => false,
        },
    }
}

/// The recipient with its optional note taken out of the option: `None` exactly for an
/// internal-account recipient whose note is `None`.
pub open spec fn transpose_note_option<AccountId, N>(
    r: Recipient<AccountId, Option<N>>,
) -> Option<Recipient<AccountId, N>> {
    match r {
        Recipient::Transparent(t) => Some(Recipient::Transparent(t)),
        Recipient::Sapling(s) => Some(Recipient::Sapling(s)),
        Recipient::Unified(u, p) => Some(Recipient::Unified(u, p)),
        Recipient::InternalAccount(a, n) => match n {
            Some(n0) => Some(Recipient::InternalAccount(a, n0)),
            None => None,
        },
    }
}

/// Mapping the internal-account note with a function that gives back its argument
/// leaves the recipient as it was.
pub proof fn lemma_map_note_identity<AccountId, N>(
    r: Recipient<AccountId, N>,
    out: Recipient<AccountId, N>,
)
    requires
        maps_internal_note(r, out, |n: N, b: N| b == n),
    ensures
        out == r,
{
}

/// Mapping the internal-account note with `f` and then with `g` relates the notes as
/// one mapping with `f` followed by `g` does.
pub proof fn lemma_map_note_composition<AccountId, N, B, C>(
    r: Recipient<AccountId, N>,
    mid: Recipient<AccountId, B>,
    out: Recipient<AccountId, C>,
    f: spec_fn(N, B) -> bool,
    g: spec_fn(B, C) -> bool,
)
    requires
        maps_internal_note(r, mid, f),
        maps_internal_note(mid, out, g),
    ensures
        maps_internal_note(r, out, |n: N, c: C| exists|b: B| #[trigger] f(n, b) && g(b, c)),
{
    if let Recipient::InternalAccount(_, n) = r {
        if let Recipient::InternalAccount(_, b) = mid {
            if let Recipient::InternalAccount(_, c) = out {
                assert(f(n, b) && g(b, c));
            }
        }
    }
}

/// Mapping the internal-account note with `f` and then with `g` gives the same
/// recipient as mapping it once with `g` after `f`.
pub proof fn lemma_map_note_composition_equal<AccountId, N, B, C>(
    r: Recipient<AccountId, N>,
    mid: Recipient<AccountId, B>,
    out: Recipient<AccountId, C>,
    once: Recipient<AccountId, C>,
    f: spec_fn(N) -> B,
    g: spec_fn(B) -> C,
)
    requires
        maps_internal_note(r, mid, |n: N, b: B| b == f(n)),
        maps_internal_note(mid, out, |b: B, c: C| c == g(b)),
        maps_internal_note(r, once, |n: N, c: C| c == g(f(n))),
    ensures
        out == once,
{
}

/// Wrapping the internal-account note in `Some` and then transposing the option gives
/// back the recipient.
pub proof fn lemma_transpose_undoes_wrapping<AccountId, N>(
    r: Recipient<AccountId, N>,
    out: Recipient<AccountId, Option<N>>,
)
    requires
        maps_internal_note(r, out, |n: N, b: Option<N>| b == Some(n)),
    ensures
        transpose_note_option(out) == Some(r),
{
}

/// Transposing succeeds on every recipient but an internal-account one without a note,
/// and wrapping the note of the result in `Some` gives back the recipient transposed.
pub proof fn lemma_wrapping_undoes_transpose<AccountId, N>(r: Recipient<AccountId, Option<N>>)
    ensures
        transpose_note_option(r) is None <==> (r matches Recipient::InternalAccount(_, n)
            && n is None),
        transpose_note_option(r) matches Some(t) ==> maps_internal_note(
            t,
            r,
            |n: N, b: Option<N>| b == Some(n),
        ),
{
}

impl<AccountId, N> Recipient<AccountId, N> {
    /// Applies `f` to the note of an internal-account recipient; any other recipient
    /// is returned as it is.
    pub fn map_internal_account_note<B, F: FnOnce(N) -> B>(self, f: F) -> (r: Recipient<
        AccountId,
        B,
    >)
        requires
            self matches Recipient::InternalAccount(_, n) ==> f.requires((n,)),
        ensures
            maps_internal_note(self, r, |n: N, b: B| f.ensures((n,), b)),
    {
        match self {
            Recipient::Transparent(t) => Recipient::Transparent(t),
            Recipient::Sapling(s) => Recipient::Sapling(s),
            Recipient::Unified(u, p) => Recipient::Unified(u, p),
            Recipient::InternalAccount(a, n) => Recipient::InternalAccount(a, f(n)),
        }
    }
}

impl<AccountId, N> Recipient<AccountId, Option<N>> {
    /// Moves the option around the note of an internal-account recipient to the outside:
    /// `None` if that note is `None`, else `Some` of the recipient with the bare note.
    pub fn internal_account_note_transpose_option(self) -> (r: Option<Recipient<AccountId, N>>)
        ensures
            r == transpose_note_option(self),
    {
        match self {
            Recipient::Transparent(t) => Some(Recipient::Transparent(t)),
            Recipient::Sapling(s) => Some(Recipient::Sapling(s)),
            Recipient::Unified(u, p) => Some(Recipient::Unified(u, p)),
            Recipient::InternalAccount(a, n) => match n {
                Some(n0) => Some(Recipient::InternalAccount(a, n0)),
                None => None,
            },
        }
    }
}


/// The shielded subset of a `Transaction`'s data that is relevant to a particular wallet.
pub struct WalletTx<AccountId> {
    txid: TxId,
    block_index: usize,
    sapling_spends: Vec<WalletSaplingSpend<AccountId>>,
    sapling_outputs: Vec<WalletSaplingOutput<AccountId>>,
    orchard_spends: Vec<WalletOrchardSpend<AccountId>>,
    orchard_outputs: Vec<WalletOrchardOutput<AccountId>>,
}

impl<AccountId> WalletTx<AccountId> {
    /// The ID of the transaction.
    pub closed spec fn spec_txid(&self) -> TxId {
        self.txid
    }

    /// The index of the transaction in the containing block.
    pub closed spec fn spec_block_index(&self) -> usize {
        self.block_index
    }

    /// The wallet's Sapling spends in the transaction.
    pub closed spec fn sapling_spends_seq(&self) -> Seq<WalletSaplingSpend<AccountId>> {
        self.sapling_spends@
    }

    /// The wallet's Sapling outputs in the transaction.
    pub closed spec fn sapling_outputs_seq(&self) -> Seq<WalletSaplingOutput<AccountId>> {
        self.sapling_outputs@
    }

    /// The wallet's Orchard spends in the transaction.
    pub closed spec fn orchard_spends_seq(&self) -> Seq<WalletOrchardSpend<AccountId>> {
        self.orchard_spends@
    }

    /// The wallet's Orchard outputs in the transaction.
    pub closed spec fn orchard_outputs_seq(&self) -> Seq<WalletOrchardOutput<AccountId>> {
        self.orchard_outputs@
    }

    /// Constructs a new [`WalletTx`] from its constituent parts.
    pub fn new(
        txid: TxId,
        block_index: usize,
        sapling_spends: Vec<WalletSaplingSpend<AccountId>>,
        sapling_outputs: Vec<WalletSaplingOutput<AccountId>>,
        orchard_spends: Vec<WalletSpend<orchard::note::Nullifier, AccountId>>,
        orchard_outputs: Vec<WalletOrchardOutput<AccountId>>,
    ) -> (r: Self)
        ensures
            r.txid() == txid,
            r.block_index() == block_index,
            r.sapling_spends_seq() == sapling_spends@,
            r.sapling_outputs_seq() == sapling_outputs@,
            r.orchard_spends_seq() == orchard_spends@,
            r.orchard_outputs_seq() == orchard_outputs@,
    {
        Self { txid, block_index, sapling_spends, sapling_outputs, orchard_spends, orchard_outputs }
    }

    /// Returns the [`TxId`] for the corresponding `Transaction`.
    #[verifier::when_used_as_spec(spec_txid)]
    pub fn txid(&self) -> (r: TxId)
        ensures
            r == self.spec_txid(),
    {
        self.txid
    }

    /// Returns the index of the transaction in the containing block.
    #[verifier::when_used_as_spec(spec_block_index)]
    pub fn block_index(&self) -> (r: usize)
        ensures
            r == self.spec_block_index(),
    {
        self.block_index
    }

    /// Returns a record for each Sapling note belonging to the wallet that was spent in the
    /// transaction.
    pub fn sapling_spends(&self) -> (r: &[WalletSaplingSpend<AccountId>])
        ensures
            r@ == self.sapling_spends_seq(),
    {
        self.sapling_spends.as_slice()
    }

    /// Returns a record for each Sapling note received or produced by the wallet in the
    /// transaction.
    pub fn sapling_outputs(&self) -> (r: &[WalletSaplingOutput<AccountId>])
        ensures
            r@ == self.sapling_outputs_seq(),
    {
        self.sapling_outputs.as_slice()
    }

    /// Returns a record for each Orchard note belonging to the wallet that was spent in the
    /// transaction.
    pub fn orchard_spends(&self) -> (r: &[WalletOrchardSpend<AccountId>])
        ensures
            r@ == self.orchard_spends_seq(),
    {
        self.orchard_spends.as_slice()
    }

    /// Returns a record for each Orchard note received or produced by the wallet in the
    /// transaction.
    pub fn orchard_outputs(&self) -> (r: &[WalletOrchardOutput<AccountId>])
        ensures
            r@ == self.orchard_outputs_seq(),
    {
        self.orchard_outputs.as_slice()
    }
}

/// A transparent output that belongs to the wallet, with the height of the block that
/// mined it and the address that it pays to.
#[derive(Debug, PartialEq, Eq)]
pub struct WalletTransparentOutput {
    outpoint: OutPoint,
    txout: TxOut,
    height: BlockHeight,
    recipient_address: TransparentAddress,
}

impl WalletTransparentOutput {
    /// The stored address is the one that the stored output's script pays to.
    #[verifier::type_invariant]
    spec fn pays_to_recipient(self) -> bool {
        spec_txout_recipient(self.txout) == Some(self.recipient_address)
    }

    /// The outpoint of the output.
    pub closed spec fn spec_outpoint(&self) -> &OutPoint {
        &self.outpoint
    }

    /// The output itself.
    pub closed spec fn spec_txout(&self) -> &TxOut {
        &self.txout
    }

    /// The height of the block that mined the output.
    pub closed spec fn spec_height(&self) -> BlockHeight {
        self.height
    }

    /// The address that the output pays to.
    pub closed spec fn spec_recipient_address(&self) -> &TransparentAddress {
        &self.recipient_address
    }

    /// Constructs a [`WalletTransparentOutput`] from an output and the address that its
    /// script pays to, as `TxOut::recipient_address` finds it: `None` when the script
    /// pays to no address, else the record of all four.
    pub fn from_parts_and_recipient(
        outpoint: OutPoint,
        txout: TxOut,
        height: BlockHeight,
        recipient_address: Option<TransparentAddress>,
    ) -> (r: Option<WalletTransparentOutput>)
        requires
            recipient_address == spec_txout_recipient(txout),
        ensures
            r is Some <==> recipient_address is Some,
            r matches Some(o) ==> {
                &&& *o.outpoint() == outpoint
                &&& *o.txout() == txout
                &&& o.height() == height
                &&& recipient_address == Some(*o.recipient_address())
            },
    {
        match recipient_address {
            Some(recipient_address) => Some(
                WalletTransparentOutput { outpoint, txout, height, recipient_address },
            ),
            None => None,
        }
    }

    /// Constructs a [`WalletTransparentOutput`] from its parts: `None` when the script
    /// of `txout` pays to no transparent address, else the record of the output and the
    /// address that `TxOut::recipient_address` finds in it.
    pub fn from_parts(outpoint: OutPoint, txout: TxOut, height: BlockHeight) -> (r: Option<
        WalletTransparentOutput,
    >)
        ensures
            r is Some <==> spec_txout_recipient(txout) is Some,
            r matches Some(o) ==> {
                &&& *o.outpoint() == outpoint
                &&& *o.txout() == txout
                &&& o.height() == height
                &&& spec_txout_recipient(txout) == Some(*o.recipient_address())
            },
    {
        let recipient_address = txout_recipient_address(&txout);
        Self::from_parts_and_recipient(outpoint, txout, height, recipient_address)
    }

    /// Returns the outpoint of the output.
    #[verifier::when_used_as_spec(spec_outpoint)]
    pub fn outpoint(&self) -> (r: &OutPoint)
        ensures
            r == self.spec_outpoint(),
    {
        &self.outpoint
    }

    /// Returns the output itself.
    #[verifier::when_used_as_spec(spec_txout)]
    pub fn txout(&self) -> (r: &TxOut)
        ensures
            r == self.spec_txout(),
    {
        &self.txout
    }

    /// Returns the height of the block that mined the output.
    #[verifier::when_used_as_spec(spec_height)]
    pub fn height(&self) -> (r: BlockHeight)
        ensures
            r == self.spec_height(),
    {
        self.height
    }

    /// Returns the address that the output pays to.
    #[verifier::when_used_as_spec(spec_recipient_address)]
    pub fn recipient_address(&self) -> (r: &TransparentAddress)
        ensures
            r == self.spec_recipient_address(),
            spec_txout_recipient(*self.txout()) == Some(*r),
    {
        proof {
            use_type_invariant(self);
        }
        &self.recipient_address
    }

    /// Returns the amount that the output carries, as `TxOut::value` reads it.
    pub fn value(&self) -> (r: Zatoshis)
        ensures
            r == spec_txout_value(*self.txout()),
    {
        txout_value(&self.txout)
    }
}

impl Clone for WalletTransparentOutput {
    fn clone(&self) -> (r: Self)
        ensures
            r == *self,
    {
        proof {
            use_type_invariant(self);
        }
        WalletTransparentOutput {
            outpoint: self.outpoint.clone(),
            txout: self.txout.clone(),
            height: self.height,
            recipient_address: self.recipient_address,
        }
    }
}

/// A reference to a spent note belonging to the wallet within a transaction.
pub struct WalletSpend<Nf, AccountId> {
    index: usize,
    nf: Nf,
    account_id: AccountId,
}

impl<Nf, AccountId> WalletSpend<Nf, AccountId> {
    /// The index of the spend or action within the transaction.
    pub closed spec fn spec_index(&self) -> usize {
        self.index
    }

    /// The nullifier of the spent note.
    pub closed spec fn spec_nf(&self) -> &Nf {
        &self.nf
    }

    /// The account to which the spent note belonged.
    pub closed spec fn spec_account_id(&self) -> &AccountId {
        &self.account_id
    }

    /// Constructs a `WalletSpend` from its constituent parts.
    pub fn from_parts(index: usize, nf: Nf, account_id: AccountId) -> (r: Self)
        ensures
            r.index() == index,
            *r.nf() == nf,
            *r.account_id() == account_id,
    {
        Self { index, nf, account_id }
    }

    /// Returns the index of the Sapling spend or Orchard action within the transaction that
    /// created this spend.
    #[verifier::when_used_as_spec(spec_index)]
    pub fn index(&self) -> (r: usize)
        ensures
            r == self.spec_index(),
    {
        self.index
    }

    /// Returns the nullifier of the spent note.
    #[verifier::when_used_as_spec(spec_nf)]
    pub fn nf(&self) -> (r: &Nf)
        ensures
            r == self.spec_nf(),
    {
        &self.nf
    }

    /// Returns the identifier to the account_id to which the note belonged.
    #[verifier::when_used_as_spec(spec_account_id)]
    pub fn account_id(&self) -> (r: &AccountId)
        ensures
            r == self.spec_account_id(),
    {
        &self.account_id
    }
}

/// A type alias for Sapling [`WalletSpend`]s.
pub type WalletSaplingSpend<AccountId> = WalletSpend<sapling_crypto::Nullifier, AccountId>;

/// A type alias for Orchard [`WalletSpend`]s.
pub type WalletOrchardSpend<AccountId> = WalletSpend<orchard::note::Nullifier, AccountId>;


/// An output that was successfully decrypted in the process of wallet scanning.
pub struct WalletOutput<Note, Nullifier, AccountId> {
    index: usize,
    ephemeral_key: EphemeralKeyBytes,
    note: Note,
    is_change: bool,
    note_commitment_tree_position: Position,
    nf: Option<Nullifier>,
    account_id: AccountId,
    recipient_key_scope: Option<Scope>,
}

impl<Note, Nullifier, AccountId> WalletOutput<Note, Nullifier, AccountId> {
    /// The index of the output or action in the transaction.
    pub closed spec fn spec_index(&self) -> usize {
        self.index
    }

    /// The ephemeral key used in the decryption of the note.
    pub closed spec fn spec_ephemeral_key(&self) -> &EphemeralKeyBytes {
        &self.ephemeral_key
    }

    /// The note.
    pub closed spec fn spec_note(&self) -> &Note {
        &self.note
    }

    /// Whether the output was classified as change.
    pub closed spec fn spec_is_change(&self) -> bool {
        self.is_change
    }

    /// The position of the note in the note commitment tree.
    pub closed spec fn spec_note_commitment_tree_position(&self) -> Position {
        self.note_commitment_tree_position
    }

    /// The nullifier of the note, if known.
    pub closed spec fn nf_option(&self) -> Option<Nullifier> {
        self.nf
    }

    /// The account to which the output belongs.
    pub closed spec fn spec_account_id(&self) -> &AccountId {
        &self.account_id
    }

    /// The ZIP 32 scope of the viewing key that decrypted the output, if known.
    pub closed spec fn spec_recipient_key_scope(&self) -> Option<Scope> {
        self.recipient_key_scope
    }

    /// Constructs a new `WalletOutput` value from its constituent parts.
    #[allow(clippy::too_many_arguments)]
    pub fn from_parts(
        index: usize,
        ephemeral_key: EphemeralKeyBytes,
        note: Note,
        is_change: bool,
        note_commitment_tree_position: Position,
        nf: Option<Nullifier>,
        account_id: AccountId,
        recipient_key_scope: Option<Scope>,
    ) -> (r: Self)
        ensures
            r.index() == index,
            *r.ephemeral_key() == ephemeral_key,
            *r.note() == note,
            r.is_change() == is_change,
            r.note_commitment_tree_position() == note_commitment_tree_position,
            r.nf_option() == nf,
            *r.account_id() == account_id,
            r.recipient_key_scope() == recipient_key_scope,
    {
        Self {
            index,
            ephemeral_key,
            note,
            is_change,
            note_commitment_tree_position,
            nf,
            account_id,
            recipient_key_scope,
        }
    }

    /// The index of the output or action in the transaction that created this output.
    #[verifier::when_used_as_spec(spec_index)]
    pub fn index(&self) -> (r: usize)
        ensures
            r == self.spec_index(),
    {
        self.index
    }

    /// The [`EphemeralKeyBytes`] used in the decryption of the note.
    #[verifier::when_used_as_spec(spec_ephemeral_key)]
    pub fn ephemeral_key(&self) -> (r: &EphemeralKeyBytes)
        ensures
            r == self.spec_ephemeral_key(),
    {
        &self.ephemeral_key
    }

    /// The note.
    #[verifier::when_used_as_spec(spec_note)]
    pub fn note(&self) -> (r: &Note)
        ensures
            r == self.spec_note(),
    {
        &self.note
    }

    /// A flag indicating whether the process of note decryption determined that this
    /// output should be classified as change.
    #[verifier::when_used_as_spec(spec_is_change)]
    pub fn is_change(&self) -> (r: bool)
        ensures
            r == self.spec_is_change(),
    {
        self.is_change
    }

    /// The position of the note in the global note commitment tree.
    #[verifier::when_used_as_spec(spec_note_commitment_tree_position)]
    pub fn note_commitment_tree_position(&self) -> (r: Position)
        ensures
            r == self.spec_note_commitment_tree_position(),
    {
        self.note_commitment_tree_position
    }

    /// The nullifier for the note, if the key used to decrypt the note was able to compute it.
    pub fn nf(&self) -> (r: Option<&Nullifier>)
        ensures
            match r {
                Some(nf) => self.nf_option() == Some(*nf),
                None => self.nf_option() is None,
            },
    {
        self.nf.as_ref()
    }

    /// The identifier for the account to which the output belongs.
    #[verifier::when_used_as_spec(spec_account_id)]
    pub fn account_id(&self) -> (r: &AccountId)
        ensures
            r == self.spec_account_id(),
    {
        &self.account_id
    }

    /// The ZIP 32 scope for which the viewing key that decrypted this output was derived, if
    /// known.
    #[verifier::when_used_as_spec(spec_recipient_key_scope)]
    pub fn recipient_key_scope(&self) -> (r: Option<Scope>)
        ensures
            r == self.spec_recipient_key_scope(),
    {
        self.recipient_key_scope
    }
}

/// A subset of an `OutputDescription` relevant to wallets and light clients.
pub type WalletSaplingOutput<AccountId> = WalletOutput<
    sapling_crypto::Note,
    sapling_crypto::Nullifier,
    AccountId,
>;

/// The output part of an Orchard `Action` that was decrypted in the process of scanning.
pub type WalletOrchardOutput<AccountId> = WalletOutput<
    orchard::note::Note,
    orchard::note::Nullifier,
    AccountId,
>;

/// The amount of a note of the given value in zatoshis: `None` when the value lies
/// above [`MAX_MONEY`], which no valid note's value does, else the amount that
/// `Zatoshis::from_u64` makes of the value.
pub fn note_value_amount(value: u64) -> (r: Option<Zatoshis>)
    ensures
        r is Some <==> value <= MAX_MONEY,
        r matches Some(z) ==> z == spec_zatoshis_from_u64(value),
        r matches Some(z) ==> spec_zatoshis_u64(z) == value,
{
    match zatoshis_from_u64(value) {
        Ok(amount) => Some(amount),
        Err(_) => None,
    }
}

/// An enumeration of supported shielded note types for use in [`ReceivedNote`]
#[derive(Debug, Clone, PartialEq, Eq)]
pub enum Note {
    Sapling(sapling_crypto::Note),
    Orchard(orchard::Note),
}

impl Note {
    /// The value of the note in zatoshis, as its pool's note type records it.
    pub open spec fn raw_value(self) -> u64 {
        match self {
            Note::Sapling(n) => spec_sapling_note_value(n),
            Note::Orchard(n) => spec_orchard_note_value(n),
        }
    }

    /// Reads the value of the note in zatoshis.
    fn read_raw_value(&self) -> (r: u64)
        ensures
            r == self.raw_value(),
            *self matches Note::Sapling(n) ==> r == spec_sapling_note_value(n),
            *self matches Note::Orchard(n) ==> r == spec_orchard_note_value(n),
    {
        match self {
            Note::Sapling(n) => sapling_note_value(n),
            Note::Orchard(n) => orchard_note_value(n),
        }
    }

    /// Returns the value of the note as an amount. Every valid note has a value of at
    /// most [`MAX_MONEY`]; [`Note::checked_value`] serves the notes that do not.
    pub fn value(&self) -> (r: Zatoshis)
        requires
            self.raw_value() <= MAX_MONEY,
        ensures
            r == spec_zatoshis_from_u64(self.raw_value()),
            spec_zatoshis_u64(r) == self.raw_value(),
            *self matches Note::Sapling(n) ==> spec_zatoshis_u64(r) == spec_sapling_note_value(n),
            *self matches Note::Orchard(n) ==> spec_zatoshis_u64(r) == spec_orchard_note_value(n),
    {
        match note_value_amount(self.read_raw_value()) {
            Some(amount) => amount,
            None => vstd::pervasive::unreached(),
        }
    }

    /// Returns the value of the note as an amount, or `None` when the note's value
    /// lies above [`MAX_MONEY`].
    pub fn checked_value(&self) -> (r: Option<Zatoshis>)
        ensures
            r is Some <==> self.raw_value() <= MAX_MONEY,
            r matches Some(z) ==> z == spec_zatoshis_from_u64(self.raw_value()),
            r matches Some(z) ==> spec_zatoshis_u64(z) == self.raw_value(),
            *self matches Note::Sapling(n) ==> (r is Some <==> spec_sapling_note_value(n)
                <= MAX_MONEY),
            *self matches Note::Orchard(n) ==> (r is Some <==> spec_orchard_note_value(n)
                <= MAX_MONEY),
            *self matches Note::Sapling(n) ==> (r matches Some(z) ==> spec_zatoshis_u64(z)
                == spec_sapling_note_value(n)),
            *self matches Note::Orchard(n) ==> (r matches Some(z) ==> spec_zatoshis_u64(z)
                == spec_orchard_note_value(n)),
    {
        if self.read_raw_value() <= MAX_MONEY {
            Some(self.value())
        } else {
            None
        }
    }

    /// Returns the shielded protocol used by this note.
    pub fn protocol(&self) -> (r: ShieldedProtocol)
        ensures
            r == (match self {
                Note::Sapling(_) => ShieldedProtocol::Sapling,
                Note::Orchard(_) => ShieldedProtocol::Orchard,
            }),
    {
        match self {
            Note::Sapling(_) => ShieldedProtocol::Sapling,
            Note::Orchard(_) => ShieldedProtocol::Orchard,
        }
    }
}

/// The value of a note is the value that its pool's note type records: a Sapling note's
/// is what `sapling_crypto::Note::value` gives, an Orchard note's what
/// `orchard::Note::value` gives, and the note has an amount exactly when that value is
/// at most [`MAX_MONEY`].
pub proof fn lemma_note_value_is_note_types_value(note: Note)
    ensures
        note matches Note::Sapling(n) ==> note.raw_value() == spec_sapling_note_value(n),
        note matches Note::Orchard(n) ==> note.raw_value() == spec_orchard_note_value(n),
{
}

/// Information about a note that is tracked by the wallet that is available for spending,
/// with sufficient information for use in note selection.
#[derive(Debug, Clone, PartialEq, Eq)]
pub struct ReceivedNote<NoteRef, NoteT> {
    note_id: NoteRef,
    txid: TxId,
    output_index: u16,
    note: NoteT,
    spending_key_scope: Scope,
    note_commitment_tree_position: Position,
}

/// `out` is `r` with its note replaced by `note`.
pub open spec fn with_note<NoteRef, NoteT, B>(
    r: ReceivedNote<NoteRef, NoteT>,
    out: ReceivedNote<NoteRef, B>,
    note: B,
) -> bool {
    &&& out.internal_note_id() == r.internal_note_id()
    &&& out.txid() == r.txid()
    &&& out.output_index() == r.output_index()
    &&& *out.note() == note
    &&& out.spending_key_scope() == r.spending_key_scope()
    &&& out.note_commitment_tree_position() == r.note_commitment_tree_position()
}

/// `out` is what traversing `r` gives when `rel` relates the note of `r` to the
/// optional new note: `None` where the new note is `None`, else `r` with its note
/// replaced by the new one.
pub open spec fn traverses_note<NoteRef, NoteT, B>(
    r: ReceivedNote<NoteRef, NoteT>,
    out: Option<ReceivedNote<NoteRef, B>>,
    rel: spec_fn(NoteT, Option<B>) -> bool,
) -> bool {
    match out {
        None => rel(*r.note(), None),
        Some(o) => rel(*r.note(), Some(*o.note())) && with_note(r, o, *o.note()),
    }
}

impl<NoteRef, NoteT> ReceivedNote<NoteRef, NoteT> {
    /// The wallet's internal identifier of the note.
    pub closed spec fn spec_internal_note_id(&self) -> &NoteRef {
        &self.note_id
    }

    /// The ID of the transaction that created the note.
    pub closed spec fn spec_txid(&self) -> &TxId {
        &self.txid
    }

    /// The index of the note among its transaction's outputs.
    pub closed spec fn spec_output_index(&self) -> u16 {
        self.output_index
    }

    /// The note.
    pub closed spec fn spec_note(&self) -> &NoteT {
        &self.note
    }

    /// The ZIP 32 scope of the key that can spend the note.
    pub closed spec fn spec_spending_key_scope(&self) -> Scope {
        self.spending_key_scope
    }

    /// The position of the note in the note commitment tree.
    pub closed spec fn spec_note_commitment_tree_position(&self) -> Position {
        self.note_commitment_tree_position
    }

    /// Constructs a `ReceivedNote` from its parts.
    pub fn from_parts(
        note_id: NoteRef,
        txid: TxId,
        output_index: u16,
        note: NoteT,
        spending_key_scope: Scope,
        note_commitment_tree_position: Position,
    ) -> (r: Self)
        ensures
            *r.internal_note_id() == note_id,
            *r.txid() == txid,
            r.output_index() == output_index,
            *r.note() == note,
            r.spending_key_scope() == spending_key_scope,
            r.note_commitment_tree_position() == note_commitment_tree_position,
    {
        ReceivedNote {
            note_id,
            txid,
            output_index,
            note,
            spending_key_scope,
            note_commitment_tree_position,
        }
    }

    /// Returns the wallet's internal identifier of the note.
    #[verifier::when_used_as_spec(spec_internal_note_id)]
    pub fn internal_note_id(&self) -> (r: &NoteRef)
        ensures
            r == self.spec_internal_note_id(),
    {
        &self.note_id
    }

    /// Returns the ID of the transaction that created the note.
    #[verifier::when_used_as_spec(spec_txid)]
    pub fn txid(&self) -> (r: &TxId)
        ensures
            r == self.spec_txid(),
    {
        &self.txid
    }

    /// Returns the index of the note among its transaction's outputs.
    #[verifier::when_used_as_spec(spec_output_index)]
    pub fn output_index(&self) -> (r: u16)
        ensures
            r == self.spec_output_index(),
    {
        self.output_index
    }

    /// Returns the note.
    #[verifier::when_used_as_spec(spec_note)]
    pub fn note(&self) -> (r: &NoteT)
        ensures
            r == self.spec_note(),
    {
        &self.note
    }

    /// Returns the ZIP 32 scope of the key that can spend the note.
    #[verifier::when_used_as_spec(spec_spending_key_scope)]
    pub fn spending_key_scope(&self) -> (r: Scope)
        ensures
            r == self.spec_spending_key_scope(),
    {
        self.spending_key_scope
    }

    /// Returns the position of the note in the note commitment tree.
    #[verifier::when_used_as_spec(spec_note_commitment_tree_position)]
    pub fn note_commitment_tree_position(&self) -> (r: Position)
        ensures
            r == self.spec_note_commitment_tree_position(),
    {
        self.note_commitment_tree_position
    }

    /// Applies the given function to the `note` field of this ReceivedNote and returns
    /// `None` if that function returns `None`, or otherwise a `Some` containing
    /// a `ReceivedNote` with its `note` field swapped out for the result of the function.
    ///
    /// The name `traverse` refers to the general operation that has the Haskell type
    /// `Applicative f => (a -> f b) -> t a -> f (t b)`, that this method specializes
    /// with `ReceivedNote<NoteRef, _>` for `t` and `Option<_>` for `f`.
    pub fn traverse_opt<B>(self, f: impl FnOnce(NoteT) -> Option<B>) -> (r: Option<
        ReceivedNote<NoteRef, B>,
    >)
        requires
            f.requires((*self.note(),)),
        ensures
            traverses_note(self, r, |n: NoteT, b: Option<B>| f.ensures((n,), b)),
    {
        let ReceivedNote {
            note_id,
            txid,
            output_index,
            note,
            spending_key_scope,
            note_commitment_tree_position,
        } = self;
        match f(note) {
            Some(n0) => Some(
                ReceivedNote {
                    note_id,
                    txid,
                    output_index,
                    note: n0,
                    spending_key_scope,
                    note_commitment_tree_position,
                },
            ),
            None => None,
        }
    }
}

impl<NoteRef> InputView<NoteRef> for ReceivedNote<NoteRef, sapling_crypto::Note> {
    open spec fn note_value(&self) -> u64 {
        spec_sapling_note_value(*self.note())
    }

    fn note_id(&self) -> (r: &NoteRef)
        ensures
            r == self.internal_note_id(),
    {
        &self.note_id
    }

    /// The value of the Sapling note, as [`note_value_amount`] turns it into an amount.
    fn value(&self) -> (r: Zatoshis)
        ensures
            spec_zatoshis_u64(r) == spec_sapling_note_value(*self.note()),
            r == spec_zatoshis_from_u64(spec_sapling_note_value(*self.note())),
    {
        match note_value_amount(sapling_note_value(&self.note)) {
            Some(amount) => amount,
            None => vstd::pervasive::unreached(),
        }
    }

    fn checked_value(&self) -> (r: Option<Zatoshis>)
        ensures
            r is Some <==> spec_sapling_note_value(*self.note()) <= MAX_MONEY,
            r matches Some(z) ==> spec_zatoshis_u64(z) == spec_sapling_note_value(*self.note()),
    {
        if sapling_note_value(&self.note) <= MAX_MONEY {
            Some(self.value())
        } else {
            None
        }
    }
}

impl<NoteRef> InputView<NoteRef> for ReceivedNote<NoteRef, orchard::Note> {
    open spec fn note_value(&self) -> u64 {
        spec_orchard_note_value(*self.note())
    }

    fn note_id(&self) -> (r: &NoteRef)
        ensures
            r == self.internal_note_id(),
    {
        &self.note_id
    }

    /// The value of the Orchard note, as [`note_value_amount`] turns it into an amount.
    fn value(&self) -> (r: Zatoshis)
        ensures
            spec_zatoshis_u64(r) == spec_orchard_note_value(*self.note()),
            r == spec_zatoshis_from_u64(spec_orchard_note_value(*self.note())),
    {
        match note_value_amount(orchard_note_value(&self.note)) {
            Some(amount) => amount,
            None => vstd::pervasive::unreached(),
        }
    }

    fn checked_value(&self) -> (r: Option<Zatoshis>)
        ensures
            r is Some <==> spec_orchard_note_value(*self.note()) <= MAX_MONEY,
            r matches Some(z) ==> spec_zatoshis_u64(z) == spec_orchard_note_value(*self.note()),
    {
        if orchard_note_value(&self.note) <= MAX_MONEY {
            Some(self.value())
        } else {
            None
        }
    }
}

/// A received Sapling note has the value of the same note taken as a [`Note`].
pub proof fn lemma_received_sapling_note_value<NoteRef>(
    r: ReceivedNote<NoteRef, sapling_crypto::Note>,
)
    ensures
        r.note_value() == Note::Sapling(*r.note()).raw_value(),
        r.note_value() == spec_sapling_note_value(*r.note()),
{
}

/// A received Orchard note has the value of the same note taken as a [`Note`].
pub proof fn lemma_received_orchard_note_value<NoteRef>(r: ReceivedNote<NoteRef, orchard::Note>)
    ensures
        r.note_value() == Note::Orchard(*r.note()).raw_value(),
        r.note_value() == spec_orchard_note_value(*r.note()),
{
}

/// Traversing a received note with a function that wraps its argument in `Some` gives
/// back `Some` of the received note as it was.
pub proof fn lemma_traverse_with_some<NoteRef, NoteT>(
    r: ReceivedNote<NoteRef, NoteT>,
    out: Option<ReceivedNote<NoteRef, NoteT>>,
)
    requires
        traverses_note(r, out, |n: NoteT, b: Option<NoteT>| b == Some(n)),
    ensures
        out == Some(r),
{
}

/// Traversing a received note with `f` and then, where that gave `Some`, with `g`
/// gives the same as traversing it once with `f` followed by `g`.
pub proof fn lemma_traverse_composition<NoteRef, A, B, C>(
    r: ReceivedNote<NoteRef, A>,
    first: Option<ReceivedNote<NoteRef, B>>,
    then: Option<ReceivedNote<NoteRef, C>>,
    once: Option<ReceivedNote<NoteRef, C>>,
    f: spec_fn(A) -> Option<B>,
    g: spec_fn(B) -> Option<C>,
)
    requires
        traverses_note(r, first, |n: A, b: Option<B>| b == f(n)),
        match first {
            None => then is None,
            Some(r1) => traverses_note(r1, then, |b: B, c: Option<C>| c == g(b)),
        },
        traverses_note(
            r,
            once,
            |n: A, c: Option<C>|
                c == (match f(n) {
                    Some(b) => g(b),
                    None => None,
                }),
        ),
    ensures
        then == once,
{
}

/// Traversing a received note gives `None` only where the function gave `None`: with a
/// function that never does, the result is `Some`.
pub proof fn lemma_traverse_none_only_from_function<NoteRef, NoteT, B>(
    r: ReceivedNote<NoteRef, NoteT>,
    out: Option<ReceivedNote<NoteRef, B>>,
    rel: spec_fn(NoteT, Option<B>) -> bool,
)
    requires
        traverses_note(r, out, rel),
        !rel(*r.note(), None),
    ensures
        out is Some,
{
}

/// Describes a policy for which outgoing viewing key should be able to decrypt
/// transaction outputs.
///
/// For details on what transaction information is visible to the holder of an outgoing
/// viewing key, refer to [ZIP 310].
///
/// [ZIP 310]: https://zips.z.cash/zip-0310
#[derive(Debug, Clone)]
pub enum OvkPolicy {
    /// Use the outgoing viewing key from the sender's `UnifiedFullViewingKey`.
    ///
    /// Transaction outputs will be decryptable by the sender, in addition to the
    /// recipients.
    Sender,
    /// Use custom outgoing viewing keys. These might for instance be derived from a
    /// different seed than the wallet's spending keys.
    ///
    /// Transaction outputs will be decryptable by the recipients, and whoever controls
    /// the provided outgoing viewing keys.
    Custom {
        sapling: sapling_crypto::keys::OutgoingViewingKey,
        orchard: orchard::keys::OutgoingViewingKey,
    },
    /// Use no outgoing viewing keys. Transaction outputs will be decryptable by their
    /// recipients, but not by the sender.
    Discard,
}

impl OvkPolicy {
    /// Constructs an [`OvkPolicy::Custom`] value from a single arbitrary 32-byte key.
    ///
    /// Outputs of transactions created with this OVK policy will be recoverable using
    /// this key irrespective of the output pool.
    pub fn custom_from_common_bytes(key: &[u8; 32]) -> (r: Self)
        ensures
            r == (OvkPolicy::Custom {
                sapling: spec_sapling_ovk(*key),
                orchard: spec_orchard_ovk(*key),
            }),
            r matches OvkPolicy::Custom { sapling, orchard } ==> spec_sapling_ovk_bytes(sapling)
                == *key && spec_orchard_ovk_bytes(orchard) == *key,
    {
        OvkPolicy::Custom {
            sapling: sapling_ovk_from_bytes(*key),
            orchard: orchard_ovk_from_bytes(*key),
        }
    }
}

/// Metadata related to the ZIP 32 derivation of a transparent address.
#[derive(Debug, Clone, PartialEq, Eq)]
pub struct TransparentAddressMetadata {
    scope: TransparentKeyScope,
    address_index: NonHardenedChildIndex,
}

impl TransparentAddressMetadata {
    /// The scope of the key from which the address was derived.
    pub closed spec fn spec_scope(&self) -> TransparentKeyScope {
        self.scope
    }

    /// The child index of the address.
    pub closed spec fn spec_address_index(&self) -> NonHardenedChildIndex {
        self.address_index
    }

    /// Constructs the metadata of an address from its key scope and child index.
    pub fn new(scope: TransparentKeyScope, address_index: NonHardenedChildIndex) -> (r: Self)
        ensures
            r.scope() == scope,
            r.address_index() == address_index,
    {
        Self { scope, address_index }
    }

    /// Returns the scope of the key from which the address was derived.
    #[verifier::when_used_as_spec(spec_scope)]
    pub fn scope(&self) -> (r: TransparentKeyScope)
        ensures
            r == self.spec_scope(),
    {
        self.scope
    }

    /// Returns the child index of the address.
    #[verifier::when_used_as_spec(spec_address_index)]
    pub fn address_index(&self) -> (r: NonHardenedChildIndex)
        ensures
            r == self.spec_address_index(),
    {
        self.address_index
    }
}

} // verus!
