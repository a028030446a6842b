//! What the bank reports of an operation that went through.

use vstd::prelude::*;

verus! {

/// An informational record of one completed operation.
#[derive(Clone, Debug, PartialEq, Eq)]
pub enum Event {
    /// The account `id` was created.
    AccountCreated { id: Vec<u8> },
    /// The account `id` was removed.
    AccountRemoved { id: Vec<u8> },
    /// `amount` units went from the account `from` to the account `to`.
    Transferred { from: Vec<u8>, to: Vec<u8>, amount: u64 },
    /// `amount` units were deposited to the account `id`.
    Deposited { id: Vec<u8>, amount: u64 },
    /// `amount` units were withdrawn from the account `id`.
    Withdrawn { id: Vec<u8>, amount: u64 },
}

/// An event, its identifiers taken as byte sequences.
pub enum EventView {
    AccountCreated { id: Seq<u8> },
    AccountRemoved { id: Seq<u8> },
    Transferred { from: Seq<u8>, to: Seq<u8>, amount: u64 },
    Deposited { id: Seq<u8>, amount: u64 },
    Withdrawn { id: Seq<u8>, amount: u64 },
}

impl View for Event {
    type V = EventView;

    open spec fn view(&self) -> EventView {
        match *self {
            Event::AccountCreated { id } => EventView::AccountCreated { id: id@ },
            Event::AccountRemoved { id } => EventView::AccountRemoved { id: id@ },
            Event::Transferred { from, to, amount } => EventView::Transferred {
                from: from@,
                to: to@,
                amount,
            },
            Event::Deposited { id, amount } => EventView::Deposited { id: id@, amount },
            Event::Withdrawn { id, amount } => EventView::Withdrawn { id: id@, amount },
        }
    }
}

} // verus!
