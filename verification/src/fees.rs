//! What fee computation and note selection read of a shielded input.

use vstd::prelude::*;

use zcash_protocol::value::Zatoshis;

use crate::outside::{spec_zatoshis_from_u64, spec_zatoshis_u64};
use crate::protocol::MAX_MONEY;

verus! {

/// A shielded note that a transaction can spend, as fee computation sees it.
pub trait InputView<NoteRef> {
    /// The value in zatoshis of the note being spent, as its pool's note type records it.
    spec fn note_value(&self) -> u64;

    /// An identifier for the input being spent.
    fn note_id(&self) -> &NoteRef;

    /// The value of the input being spent. Every valid note has a value of at most
    /// [`MAX_MONEY`]; [`InputView::checked_value`] serves the notes that do not.
    fn value(&self) -> (r: Zatoshis)
        requires
            self.note_value() <= MAX_MONEY,
        ensures
            r == spec_zatoshis_from_u64(self.note_value()),
            spec_zatoshis_u64(r) == self.note_value(),
    ;

    /// The value of the input being spent, or `None` when the note's value lies above
    /// [`MAX_MONEY`].
    fn checked_value(&self) -> (r: Option<Zatoshis>)
        ensures
            r is Some <==> self.note_value() <= MAX_MONEY,
            r matches Some(z) ==> z == spec_zatoshis_from_u64(self.note_value()),
            r matches Some(z) ==> spec_zatoshis_u64(z) == self.note_value(),
    ;
}

} // verus!
