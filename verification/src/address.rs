//! Unified addresses: a bundle of receivers for the different value pools.

use vstd::prelude::*;

use sapling_crypto::PaymentAddress;
use zcash_transparent::address::TransparentAddress;

verus! {

/// A unified address, holding at most one receiver for each value pool, of which at
/// least one is shielded.
#[derive(Debug, Clone, PartialEq, Eq)]
pub struct UnifiedAddress {
    orchard: Option<orchard::Address>,
    sapling: Option<PaymentAddress>,
    transparent: Option<TransparentAddress>,
}

impl UnifiedAddress {
    /// The Orchard receiver of this address, if any.
    pub closed spec fn spec_orchard(&self) -> Option<orchard::Address> {
        self.orchard
    }

    /// The Sapling receiver of this address, if any.
    pub closed spec fn spec_sapling(&self) -> Option<PaymentAddress> {
        self.sapling
    }

    /// The transparent receiver of this address, if any.
    pub closed spec fn spec_transparent(&self) -> Option<TransparentAddress> {
        self.transparent
    }

    /// Constructs a unified address from the given receivers.
    ///
    /// Returns `None` if the receivers would produce an invalid unified address, that
    /// is, one without a shielded receiver.
    pub fn from_receivers(
        orchard: Option<orchard::Address>,
        sapling: Option<PaymentAddress>,
        transparent: Option<TransparentAddress>,
    ) -> (r: Option<Self>)
        ensures
            r is Some <==> (orchard is Some || sapling is Some),
            r matches Some(ua) ==> {
                &&& ua.spec_orchard() == orchard
                &&& ua.spec_sapling() == sapling
                &&& ua.spec_transparent() == transparent
            },
    {
        if orchard.is_some() || sapling.is_some() {
            Some(UnifiedAddress { orchard, sapling, transparent })
        } else {
            None
        }
    }

    /// Returns the Orchard receiver of this address, if any.
    pub fn orchard(&self) -> (r: Option<&orchard::Address>)
        ensures
            match r { Some(a) => self.spec_orchard() == Some(*a), None => self.spec_orchard() is None },
    {
        self.orchard.as_ref()
    }

    /// Returns the Sapling receiver of this address, if any.
    pub fn sapling(&self) -> (r: Option<&PaymentAddress>)
        ensures
            match r { Some(a) => self.spec_sapling() == Some(*a), None => self.spec_sapling() is None },
    {
        self.sapling.as_ref()
    }

    /// Returns the transparent receiver of this address, if any.
    pub fn transparent(&self) -> (r: Option<&TransparentAddress>)
        ensures
            match r { Some(a) => self.spec_transparent() == Some(*a), None => self.spec_transparent() is None },
    {
        self.transparent.as_ref()
    }
}

} // verus!
