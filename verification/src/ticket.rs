use vstd::prelude::*;

verus! {

/// A support ticket: the one entity the store persists.
///
/// `owner` and `description` are never empty once a ticket exists; `status`
/// is an open label (its conventional starting value is "New", but no fixed
/// set of values is enforced).
#[derive(Debug, PartialEq)]
pub struct Ticket {
    /// Unique, store-assigned identifier.
    pub id: u64,
    /// Who the ticket is for; "Unassigned" when nobody owns it yet.
    pub owner: String,
    /// Free text describing the issue; required, non-empty.
    pub description: String,
    /// Lifecycle label; an open string, never null.
    pub status: String,
}

/// The mathematical content of a ticket: its identifier and the character
/// sequences of its three text fields.
#[verifier::ext_equal]
pub ghost struct TicketModel {
    pub id: nat,
    pub owner: Seq<char>,
    pub description: Seq<char>,
    pub status: Seq<char>,
}

impl TicketModel {
    /// A ticket is well formed when its owner and description are non-empty.
    pub open spec fn wf(self) -> bool {
        self.owner.len() > 0 && self.description.len() > 0
    }
}

impl View for Ticket {
    type V = TicketModel;

    open spec fn view(&self) -> TicketModel {
        TicketModel {
            id: self.id as nat,
            owner: self.owner@,
            description: self.description@,
            status: self.status@,
        }
    }
}

impl DeepView for Ticket {
    type V = TicketModel;

    open spec fn deep_view(&self) -> TicketModel {
        self.view()
    }
}

impl Ticket {
    /// An exact copy of this ticket.
    pub fn duplicate(&self) -> (r: Ticket)
        ensures
            r@ == self@,
    {
        Ticket {
            id: self.id,
            owner: self.owner.clone(),
            description: self.description.clone(),
            status: self.status.clone(),
        }
    }
}

} // verus!
