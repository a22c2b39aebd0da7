use crate::identity::Identity;
use vstd::prelude::*;

verus! {

/// What the host engine has to carry out for an invocation that was
/// accepted. Nothing of it takes effect unless the host completes it.
#[derive(Clone, Debug)]
pub enum Directive {
    /// Create the vault slot at `address`, `size` bytes wide and funded by
    /// `payer` to the host's minimum for that size, on the authority of the
    /// derivation that ends in `bump`; then resume the invocation.
    CreateSlot { address: Identity, payer: Identity, size: u64, bump: u8 },
    /// Move `amount` from the slot at `from` to the slot at `to` with the
    /// host's transfer primitive, then store `record` in the slot at `to`.
    Transfer { from: Identity, to: Identity, amount: u64, record: Vec<u8> },
    /// Set the quantity of the vault slot to `vault_quantity` and that of the
    /// depositor slot to `depositor_quantity`, and store `record` in the
    /// vault slot.
    Settle { vault_quantity: u64, depositor_quantity: u64, record: Vec<u8> },
}

/// A directive as a mathematical value.
pub enum DirectiveView {
    CreateSlot { address: Seq<u8>, payer: Seq<u8>, size: nat, bump: u8 },
    Transfer { from: Seq<u8>, to: Seq<u8>, amount: nat, record: Seq<u8> },
    Settle { vault_quantity: nat, depositor_quantity: nat, record: Seq<u8> },
}

impl View for Directive {
    type V = DirectiveView;

    open spec fn view(&self) -> DirectiveView {
        match *self {
            Directive::CreateSlot { address, payer, size, bump } => DirectiveView::CreateSlot {
                address: address@,
                payer: payer@,
                size: size as nat,
                bump,
            },
            Directive::Transfer { from, to, amount, record } => DirectiveView::Transfer {
                from: from@,
                to: to@,
                amount: amount as nat,
                record: record@,
            },
            Directive::Settle {
                vault_quantity,
                depositor_quantity,
                record,
            } => DirectiveView::Settle {
                vault_quantity: vault_quantity as nat,
                depositor_quantity: depositor_quantity as nat,
                record: record@,
            },
        }
    }
}

} // verus!
