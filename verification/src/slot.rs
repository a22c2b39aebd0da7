use crate::identity::Identity;
use vstd::prelude::*;

verus! {

/// What an invocation sees of one storage slot of the host.
#[derive(Clone, Debug)]
pub struct Slot {
    /// Where the slot lives.
    pub address: Identity,
    /// Whether the invocation carries a valid signature of this identity.
    pub is_signer: bool,
    /// The native-asset quantity attached to the slot.
    pub quantity: u64,
    /// The bytes stored in the slot.
    pub data: Vec<u8>,
}

/// A storage slot as a mathematical value.
pub struct SlotView {
    pub address: Seq<u8>,
    pub is_signer: bool,
    pub quantity: nat,
    pub data: Seq<u8>,
}

impl View for Slot {
    type V = SlotView;

    open spec fn view(&self) -> SlotView {
        SlotView {
            address: self.address@,
            is_signer: self.is_signer,
            quantity: self.quantity as nat,
            data: self.data@,
        }
    }
}

/// The slots of an invocation, each by its view, in the order supplied.
pub open spec fn slot_views(slots: Seq<Slot>) -> Seq<SlotView> {
    slots.map_values(|slot: Slot| slot@)
}

} // verus!
