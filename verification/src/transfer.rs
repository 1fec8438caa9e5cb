use vstd::prelude::*;
use crate::address::Address;

verus! {

/// How the token ledger is asked to move funds.
#[derive(Clone, Copy, Debug, PartialEq, Eq, Structural)]
pub enum TransferMode {
    /// The sender moves its own funds and authorizes the transfer itself.
    Direct,
    /// The engine moves the sender's funds out of an allowance that the
    /// sender has granted to it.
    Allowance,
}

/// A movement of funds that the token ledger has to carry out. It belongs
/// to the operation that returned it: if the ledger refuses it, the
/// operation has not happened.
#[derive(Debug)]
pub struct Transfer {
    /// The token that moves.
    pub token: Address,
    /// The account that is debited.
    pub from: Address,
    /// The account that is credited.
    pub to: Address,
    /// How much moves.
    pub amount: i128,
    /// Which operation of the ledger moves it.
    pub mode: TransferMode,
}

/// What a transfer is, as a mathematical value.
pub struct TransferView {
    pub token: Seq<char>,
    pub from: Seq<char>,
    pub to: Seq<char>,
    pub amount: i128,
    pub mode: TransferMode,
}

impl View for Transfer {
    type V = TransferView;

    open spec fn view(&self) -> TransferView {
        TransferView {
            token: self.token@,
            from: self.from@,
            to: self.to@,
            amount: self.amount,
            mode: self.mode,
        }
    }
}

impl Clone for Transfer {
    fn clone(&self) -> (copy: Transfer)
        ensures
            copy == *self,
    {
        Transfer {
            token: self.token.clone(),
            from: self.from.clone(),
            to: self.to.clone(),
            amount: self.amount,
            mode: self.mode,
        }
    }
}

} // verus!
