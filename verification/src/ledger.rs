//! The four balances that a swap touches, as one closed set.
//!
//! A [`Ledger`] holds the balances of the two users and the two reserves, all
//! of them distinct accounts. Settling a swap on it applies the three balance
//! steps in order, or none of them.

use vstd::prelude::*;
use crate::curve::{
    counter_amount, lemma_counter_amount_bounds, lemma_round_trip, quote, quote_defined, SCALE,
};
use crate::error::SwapError;
use crate::processor::{Direction, HostReply, Settlement};

verus! {

/// The balances of the four accounts of a swap, by role.
#[derive(Debug, Clone, Copy, PartialEq, Eq, Structural)]
pub struct Ledger {
    pub user_1: u64,
    pub user_2: u64,
    pub reserve_a: u64,
    pub reserve_b: u64,
}

impl Ledger {
    /// The value that the four accounts hold together.
    pub open spec fn total(&self) -> int {
        self.user_1 + self.user_2 + self.reserve_a + self.reserve_b
    }

    /// Balance of the user who pays in this direction.
    pub open spec fn payer(&self, direction: Direction) -> u64 {
        match direction {
            Direction::AtoB => self.user_1,
            Direction::BtoA => self.user_2,
        }
    }

    /// Balance of the user who is paid in this direction.
    pub open spec fn recipient(&self, direction: Direction) -> u64 {
        match direction {
            Direction::AtoB => self.user_2,
            Direction::BtoA => self.user_1,
        }
    }

    /// Balance of the reserve that is paid into in this direction.
    pub open spec fn source(&self, direction: Direction) -> u64 {
        match direction {
            Direction::AtoB => self.reserve_a,
            Direction::BtoA => self.reserve_b,
        }
    }

    /// Balance of the reserve that pays out in this direction.
    pub open spec fn destination(&self, direction: Direction) -> u64 {
        match direction {
            Direction::AtoB => self.reserve_b,
            Direction::BtoA => self.reserve_a,
        }
    }

    /// The ledger with these four balances in the roles of a direction.
    pub open spec fn with_roles(
        direction: Direction,
        payer: u64,
        recipient: u64,
        source: u64,
        destination: u64,
    ) -> Ledger {
        match direction {
            Direction::AtoB => Ledger {
                user_1: payer,
                user_2: recipient,
                reserve_a: source,
                reserve_b: destination,
            },
            Direction::BtoA => Ledger {
                user_1: recipient,
                user_2: payer,
                reserve_a: destination,
                reserve_b: source,
            },
        }
    }

    /// Whether the incoming transfer of a settlement goes through: the host
    /// accepted it, the payer holds the amount, and the source reserve has
    /// room for it.
    pub open spec fn transfer_goes_through(&self, settlement: Settlement, reply: HostReply) -> bool {
        &&& reply == HostReply::Accepted
        &&& settlement.amount_in <= self.payer(settlement.direction)
        &&& self.source(settlement.direction) + settlement.amount_in <= u64::MAX
    }

    /// The outcome of a settlement on this ledger: the transfer into the
    /// source reserve, the debit of the destination reserve, the credit of the
    /// recipient, each on what the step before it left.
    pub open spec fn settled(&self, settlement: Settlement, reply: HostReply) -> Result<
        Ledger,
        SwapError,
    > {
        let direction = settlement.direction;
        if !self.transfer_goes_through(settlement, reply) {
            Err(SwapError::TransferFailed)
        } else if settlement.amount_out > self.destination(direction) {
            Err(SwapError::InsufficientReserve)
        } else if self.recipient(direction) + settlement.amount_out > u64::MAX {
            Err(SwapError::ArithmeticOverflow)
        } else {
            Ok(
                Ledger::with_roles(
                    direction,
                    (self.payer(direction) - settlement.amount_in) as u64,
                    (self.recipient(direction) + settlement.amount_out) as u64,
                    (self.source(direction) + settlement.amount_in) as u64,
                    (self.destination(direction) - settlement.amount_out) as u64,
                ),
            )
        }
    }

    /// The outcome of a whole swap on this ledger: priced on the reserves as
    /// they stand, then settled.
    pub open spec fn swapped(&self, direction: Direction, amount: u64, reply: HostReply) -> Result<
        Ledger,
        SwapError,
    > {
        let source = self.source(direction) as int;
        let destination = self.destination(direction) as int;
        if !quote_defined(source, destination, amount as int) {
            Err(SwapError::ArithmeticOverflow)
        } else {
            self.settled(
                Settlement {
                    direction,
                    amount_in: amount,
                    amount_out: counter_amount(source, destination, amount as int) as u64,
                },
                reply,
            )
        }
    }

    /// A swap that goes through moves exactly the requested amount from the
    /// payer into the source reserve and exactly the counter-amount from the
    /// destination reserve to the recipient, and conserves the value of the
    /// four accounts. A swap priced on the ledger never overdraws the
    /// destination reserve.
    pub proof fn lemma_swap_moves_value(self, direction: Direction, amount: u64, reply: HostReply)
        ensures
            match self.swapped(direction, amount, reply) {
                Ok(after) => {
                    let out = counter_amount(
                        self.source(direction) as int,
                        self.destination(direction) as int,
                        amount as int,
                    );
                    &&& 0 <= out <= self.destination(direction)
                    &&& after.source(direction) == self.source(direction) + amount
                    &&& after.destination(direction) == self.destination(direction) - out
                    &&& after.payer(direction) == self.payer(direction) - amount
                    &&& after.recipient(direction) == self.recipient(direction) + out
                    &&& after.total() == self.total()
                },
                Err(e) => e != SwapError::InsufficientReserve,
            },
    {
        let source = self.source(direction) as int;
        let destination = self.destination(direction) as int;
        if quote_defined(source, destination, amount as int) {
            lemma_counter_amount_bounds(source, destination, amount as int);
        }
    }

    /// A swap followed by the opposite swap of what it paid out, both gone
    /// through: the reserve that paid out first is back at its balance, and so
    /// is the user who was paid first. The reserve that was paid into first
    /// ends no higher than it began, given that the first swap paid out so
    /// much that `SCALE` times the gain in the product of the reserves stays
    /// under the balance of the reserve that paid.
    pub proof fn lemma_round_trip_returns(self, direction: Direction, amount: u64)
        requires
            self.swapped(direction, amount, HostReply::Accepted) is Ok,
            ({
                let out = counter_amount(
                    self.source(direction) as int,
                    self.destination(direction) as int,
                    amount as int,
                );
                let middle = self.swapped(direction, amount, HostReply::Accepted)->Ok_0;
                &&& middle.swapped(direction.opposite(), out as u64, HostReply::Accepted) is Ok
                &&& SCALE * (self.destination(direction) * amount - (self.source(direction)
                    + amount) * out) < self.destination(direction)
            }),
        ensures
            ({
                let out = counter_amount(
                    self.source(direction) as int,
                    self.destination(direction) as int,
                    amount as int,
                );
                let middle = self.swapped(direction, amount, HostReply::Accepted)->Ok_0;
                let end = middle.swapped(direction.opposite(), out as u64, HostReply::Accepted)->Ok_0;
                &&& end.source(direction) <= self.source(direction)
                &&& end.destination(direction) == self.destination(direction)
                &&& end.recipient(direction) == self.recipient(direction)
                &&& end.payer(direction) >= self.payer(direction)
                &&& end.total() == self.total()
            }),
    {
        let source = self.source(direction) as int;
        let destination = self.destination(direction) as int;
        let out = counter_amount(source, destination, amount as int);
        self.lemma_swap_moves_value(direction, amount, HostReply::Accepted);
        let middle = self.swapped(direction, amount, HostReply::Accepted)->Ok_0;
        middle.lemma_swap_moves_value(direction.opposite(), out as u64, HostReply::Accepted);
        lemma_round_trip(source, destination, amount as int);
    }

    /// The same two swaps where the first one paid out less: `SCALE` times the
    /// gain in the product of the reserves reaches the balance of the reserve
    /// that paid. The second swap then returns less than the first took in,
    /// and the reserve that was paid into first ends higher than it began.
    pub proof fn lemma_round_trip_keeps(self, direction: Direction, amount: u64)
        requires
            self.swapped(direction, amount, HostReply::Accepted) is Ok,
            ({
                let out = counter_amount(
                    self.source(direction) as int,
                    self.destination(direction) as int,
                    amount as int,
                );
                let middle = self.swapped(direction, amount, HostReply::Accepted)->Ok_0;
                &&& middle.swapped(direction.opposite(), out as u64, HostReply::Accepted) is Ok
                &&& SCALE * (self.destination(direction) * amount - (self.source(direction)
                    + amount) * out) >= self.destination(direction)
            }),
        ensures
            ({
                let out = counter_amount(
                    self.source(direction) as int,
                    self.destination(direction) as int,
                    amount as int,
                );
                let middle = self.swapped(direction, amount, HostReply::Accepted)->Ok_0;
                let end = middle.swapped(direction.opposite(), out as u64, HostReply::Accepted)->Ok_0;
                &&& end.source(direction) > self.source(direction)
                &&& end.destination(direction) == self.destination(direction)
                &&& end.recipient(direction) == self.recipient(direction)
                &&& end.payer(direction) < self.payer(direction)
                &&& end.total() == self.total()
            }),
    {
        let source = self.source(direction) as int;
        let destination = self.destination(direction) as int;
        let out = counter_amount(source, destination, amount as int);
        self.lemma_swap_moves_value(direction, amount, HostReply::Accepted);
        let middle = self.swapped(direction, amount, HostReply::Accepted)->Ok_0;
        middle.lemma_swap_moves_value(direction.opposite(), out as u64, HostReply::Accepted);
        lemma_round_trip(source, destination, amount as int);
    }

    /// Settles a swap: on success the three balance steps have been applied in
    /// order; on any failure the ledger is as it was.
    pub fn settle(&mut self, settlement: &Settlement, reply: HostReply) -> (result: Result<
        (),
        SwapError,
    >)
        ensures
            match old(self).settled(*settlement, reply) {
                Ok(ledger) => result == Ok::<(), SwapError>(()) && *final(self) == ledger,
                Err(e) => result == Err::<(), SwapError>(e) && *final(self) == *old(self),
            },
            final(self).total() == old(self).total(),
    {
        let (payer, recipient, source, destination): (u64, u64, u64, u64) =
            match settlement.direction {
            Direction::AtoB => (self.user_1, self.user_2, self.reserve_a, self.reserve_b),
            Direction::BtoA => (self.user_2, self.user_1, self.reserve_b, self.reserve_a),
        };
        if reply == HostReply::Rejected {
            return Err(SwapError::TransferFailed);
        }
        let payer_left: u64 = match payer.checked_sub(settlement.amount_in) {
            Some(left) => left,
            None => { return Err(SwapError::TransferFailed); },
        };
        let source_sum: u64 = match source.checked_add(settlement.amount_in) {
            Some(sum) => sum,
            None => { return Err(SwapError::TransferFailed); },
        };
        let destination_left: u64 = match settlement.debit_reserve(destination) {
            Ok(left) => left,
            Err(e) => { return Err(e); },
        };
        let recipient_sum: u64 = match settlement.credit_recipient(recipient) {
            Ok(sum) => sum,
            Err(e) => { return Err(e); },
        };
        match settlement.direction {
            Direction::AtoB => {
                self.user_1 = payer_left;
                self.user_2 = recipient_sum;
                self.reserve_a = source_sum;
                self.reserve_b = destination_left;
            },
            Direction::BtoA => {
                self.user_2 = payer_left;
                self.user_1 = recipient_sum;
                self.reserve_b = source_sum;
                self.reserve_a = destination_left;
            },
        }
        Ok(())
    }

    /// Carries a whole swap through: prices `amount` on the reserves as they
    /// stand, then settles. Returns the counter-amount that was paid out.
    pub fn swap(&mut self, direction: Direction, amount: u64, reply: HostReply) -> (result:
        Result<u64, SwapError>)
        ensures
            match old(self).swapped(direction, amount, reply) {
                Ok(ledger) => result == Ok::<u64, SwapError>(
                    counter_amount(
                        old(self).source(direction) as int,
                        old(self).destination(direction) as int,
                        amount as int,
                    ) as u64,
                ) && *final(self) == ledger,
                Err(e) => result == Err::<u64, SwapError>(e) && *final(self) == *old(self),
            },
            result matches Ok(out) ==> {
                &&& final(self).source(direction) == old(self).source(direction) + amount
                &&& final(self).destination(direction) == old(self).destination(direction) - out
                &&& final(self).payer(direction) == old(self).payer(direction) - amount
                &&& final(self).recipient(direction) == old(self).recipient(direction) + out
            },
            result != Err::<u64, SwapError>(SwapError::InsufficientReserve),
            final(self).total() == old(self).total(),
    {
        proof {
            old(self).lemma_swap_moves_value(direction, amount, reply);
        }
        let (source, destination): (u64, u64) = match direction {
            Direction::AtoB => (self.reserve_a, self.reserve_b),
            Direction::BtoA => (self.reserve_b, self.reserve_a),
        };
        let amount_out: u64 = match quote(source, destination, amount) {
            Ok(out) => out,
            Err(e) => { return Err(e); },
        };
        let settlement = Settlement { direction, amount_in: amount, amount_out };
        match self.settle(&settlement, reply) {
            Ok(()) => Ok(amount_out),
            Err(e) => Err(e),
        }
    }
}

} // verus!
