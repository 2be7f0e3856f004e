//! From an instruction and its accounts to what the host has to carry out.
//!
//! Nothing here moves value. A swap resolves to a [`Settlement`], a
//! provisioning request to a [`Provisioning`]; the host performs the transfer
//! or the creations and reports back, and the balance steps of a settlement
//! are then computed on the balances the host holds at that moment.

use vstd::prelude::*;
use vstd::string::StringSliceAdditionalSpecFns;
use crate::address::{find_program_address, program_address, Address, Reserve};
use crate::curve::{counter_amount, quote, quote_defined};
use crate::error::SwapError;
use crate::instruction::{decode, SwapInstruction};

verus! {

/// What the logic reads of an account: its address, whether it signed the
/// transaction, and its balance when the invocation began.
#[derive(Debug, Clone, Copy, PartialEq, Eq)]
pub struct Account {
    pub key: Address,
    pub is_signer: bool,
    pub lamports: u64,
}

/// Number of accounts that every operation binds to roles.
pub const ROLES: usize = 4;

/// Position of the first user account of a swap.
pub const USER_1: usize = 0;

/// Position of the second user account of a swap.
pub const USER_2: usize = 1;

/// Position of reserve A in the accounts of a swap.
pub const RESERVE_A: usize = 2;

/// Position of reserve B in the accounts of a swap.
pub const RESERVE_B: usize = 3;

/// Position of the payer in the accounts of a provisioning request.
pub const PAYER: usize = 0;

/// Position of the address of reserve A in the accounts of a provisioning request.
pub const NEW_RESERVE_A: usize = 1;

/// Position of the address of reserve B in the accounts of a provisioning request.
pub const NEW_RESERVE_B: usize = 2;

/// Position of the allocator service in the accounts of a provisioning request.
pub const ALLOCATOR: usize = 3;

/// The direction of a swap.
#[derive(Debug, Clone, Copy, PartialEq, Eq, Structural)]
pub enum Direction {
    /// Into reserve A, out of reserve B. The first user pays and has to sign.
    AtoB,
    /// Into reserve B, out of reserve A. The second user pays and has to sign.
    BtoA,
}

impl Direction {
    /// The direction that trades the other way.
    pub open spec fn opposite(&self) -> Direction {
        match self {
            Direction::AtoB => Direction::BtoA,
            Direction::BtoA => Direction::AtoB,
        }
    }

    /// Position of the user who is debited and has to authorize the swap.
    #[verifier::when_used_as_spec(spec_payer)]
    pub fn payer(&self) -> (position: usize)
        ensures
            position == self.spec_payer(),
    {
        match self {
            Direction::AtoB => USER_1,
            Direction::BtoA => USER_2,
        }
    }

    pub open spec fn spec_payer(&self) -> usize {
        match self {
            Direction::AtoB => USER_1,
            Direction::BtoA => USER_2,
        }
    }

    /// Position of the user who is credited with the counter-amount.
    #[verifier::when_used_as_spec(spec_recipient)]
    pub fn recipient(&self) -> (position: usize)
        ensures
            position == self.spec_recipient(),
    {
        match self {
            Direction::AtoB => USER_2,
            Direction::BtoA => USER_1,
        }
    }

    pub open spec fn spec_recipient(&self) -> usize {
        match self {
            Direction::AtoB => USER_2,
            Direction::BtoA => USER_1,
        }
    }

    /// Position of the reserve that takes the incoming amount.
    #[verifier::when_used_as_spec(spec_source)]
    pub fn source(&self) -> (position: usize)
        ensures
            position == self.spec_source(),
    {
        match self {
            Direction::AtoB => RESERVE_A,
            Direction::BtoA => RESERVE_B,
        }
    }

    pub open spec fn spec_source(&self) -> usize {
        match self {
            Direction::AtoB => RESERVE_A,
            Direction::BtoA => RESERVE_B,
        }
    }

    /// Position of the reserve that pays the counter-amount out.
    #[verifier::when_used_as_spec(spec_destination)]
    pub fn destination(&self) -> (position: usize)
        ensures
            position == self.spec_destination(),
    {
        match self {
            Direction::AtoB => RESERVE_B,
            Direction::BtoA => RESERVE_A,
        }
    }

    pub open spec fn spec_destination(&self) -> usize {
        match self {
            Direction::AtoB => RESERVE_B,
            Direction::BtoA => RESERVE_A,
        }
    }
}

/// A swap that passed validation and pricing. The host first transfers
/// `amount_in` from the payer to the source reserve; then the destination
/// reserve is debited by `amount_out` and the recipient credited with it.
#[derive(Debug, Clone, Copy, PartialEq, Eq, Structural)]
pub struct Settlement {
    pub direction: Direction,
    pub amount_in: u64,
    pub amount_out: u64,
}

/// The proof by which the program acts for a reserve address: the seed label
/// of the reserve and the bump that completes the derivation.
#[derive(Debug, Clone, Copy, PartialEq, Eq, Structural)]
pub struct ReserveAuthority {
    pub reserve: Reserve,
    pub bump: u8,
}

/// One reserve account to create: where, with what balance, and by which
/// authority.
#[derive(Debug, Clone, Copy, PartialEq, Eq)]
pub struct Creation {
    pub address: Address,
    pub lamports: u64,
    pub authority: ReserveAuthority,
}

/// A provisioning request that passed validation: reserve A is created first,
/// then reserve B, both funded by the payer.
#[derive(Debug, Clone, Copy, PartialEq, Eq)]
pub struct Provisioning {
    pub reserve_a: Creation,
    pub reserve_b: Creation,
}

/// What the host has to carry out for an instruction.
#[derive(Debug, Clone, Copy, PartialEq, Eq)]
pub enum Action {
    Swap(Settlement),
    CreateAccounts(Provisioning),
}

/// The answer of the host to a transfer or a creation that it was asked for.
#[derive(Debug, Clone, Copy, PartialEq, Eq, Structural)]
pub enum HostReply {
    Accepted,
    Rejected,
}

impl Settlement {
    /// The balance of the destination reserve after the debit. A reserve that
    /// holds less than the counter-amount is not debited at all.
    pub fn debit_reserve(&self, balance: u64) -> (result: Result<u64, SwapError>)
        ensures
            self.amount_out <= balance ==> result == Ok::<u64, SwapError>(
                (balance - self.amount_out) as u64,
            ),
            self.amount_out > balance ==> result == Err::<u64, SwapError>(
                SwapError::InsufficientReserve,
            ),
    {
        match balance.checked_sub(self.amount_out) {
            Some(left) => Ok(left),
            None => Err(SwapError::InsufficientReserve),
        }
    }

    /// The balance of the recipient after the credit.
    pub fn credit_recipient(&self, balance: u64) -> (result: Result<u64, SwapError>)
        ensures
            balance + self.amount_out <= u64::MAX ==> result == Ok::<u64, SwapError>(
                (balance + self.amount_out) as u64,
            ),
            balance + self.amount_out > u64::MAX ==> result == Err::<u64, SwapError>(
                SwapError::ArithmeticOverflow,
            ),
    {
        match balance.checked_add(self.amount_out) {
            Some(sum) => Ok(sum),
            None => Err(SwapError::ArithmeticOverflow),
        }
    }
}

impl Action {
    /// The failure that ends the invocation when the host turns down what the
    /// action asked of it.
    pub open spec fn rejection(&self) -> SwapError {
        match self {
            Action::Swap(_) => SwapError::TransferFailed,
            Action::CreateAccounts(_) => SwapError::AccountCreationFailed,
        }
    }

    /// Takes the answer of the host to the transfer of a swap, or to either
    /// creation of a provisioning request. A rejection ends the invocation.
    pub fn acknowledge(&self, reply: HostReply) -> (result: Result<(), SwapError>)
        ensures
            reply == HostReply::Accepted ==> result == Ok::<(), SwapError>(()),
            reply == HostReply::Rejected ==> result == Err::<(), SwapError>(self.rejection()),
    {
        match reply {
            HostReply::Accepted => Ok(()),
            HostReply::Rejected => match self {
                Action::Swap(_) => Err(SwapError::TransferFailed),
                Action::CreateAccounts(_) => Err(SwapError::AccountCreationFailed),
            },
        }
    }
}

/// Position of the account that has to have signed for an instruction: the
/// user who is debited by a swap, the payer of a provisioning request.
pub open spec fn authorizer(instruction: SwapInstruction) -> usize {
    match instruction {
        SwapInstruction::SwapAtoB { .. } => Direction::AtoB.spec_payer(),
        SwapInstruction::SwapBtoA { .. } => Direction::BtoA.spec_payer(),
        SwapInstruction::CreateAccounts { .. } => PAYER,
    }
}

/// What a swap resolves to on these accounts. The checks come in this order:
/// the number of accounts, the signature of the payer, the pricing formula on
/// the balances of the two reserves as the accounts show them.
pub open spec fn swap_plan(direction: Direction, accounts: Seq<Account>, amount: u64) -> Result<
    Settlement,
    SwapError,
> {
    if accounts.len() < ROLES {
        Err(SwapError::InsufficientAccounts)
    } else if !accounts[direction.spec_payer() as int].is_signer {
        Err(SwapError::MissingAuthorization)
    } else {
        let source = accounts[direction.spec_source() as int].lamports as int;
        let destination = accounts[direction.spec_destination() as int].lamports as int;
        if !quote_defined(source, destination, amount as int) {
            Err(SwapError::ArithmeticOverflow)
        } else {
            Ok(
                Settlement {
                    direction,
                    amount_in: amount,
                    amount_out: counter_amount(source, destination, amount as int) as u64,
                },
            )
        }
    }
}

/// Whether a derivation yields this address.
pub open spec fn derives(derived: Option<(Seq<u8>, u8)>, address: Address) -> bool {
    derived matches Some((bytes, _)) && bytes == address@
}

/// What a provisioning request resolves to on these accounts, given the two
/// derived reserve addresses. The checks come in this order: the number of
/// accounts, the signature of the payer, the address of reserve A, the address
/// of reserve B.
pub open spec fn provisioning_plan(
    accounts: Seq<Account>,
    amount_a: u64,
    amount_b: u64,
    derived_a: Option<(Seq<u8>, u8)>,
    derived_b: Option<(Seq<u8>, u8)>,
) -> Result<Provisioning, SwapError> {
    if accounts.len() < ROLES {
        Err(SwapError::InsufficientAccounts)
    } else if !accounts[PAYER as int].is_signer {
        Err(SwapError::MissingAuthorization)
    } else if !derives(derived_a, accounts[NEW_RESERVE_A as int].key) || !derives(
        derived_b,
        accounts[NEW_RESERVE_B as int].key,
    ) {
        Err(SwapError::AddressMismatch)
    } else {
        Ok(
            Provisioning {
                reserve_a: Creation {
                    address: accounts[NEW_RESERVE_A as int].key,
                    lamports: amount_a,
                    authority: ReserveAuthority { reserve: Reserve::A, bump: derived_a->Some_0.1 },
                },
                reserve_b: Creation {
                    address: accounts[NEW_RESERVE_B as int].key,
                    lamports: amount_b,
                    authority: ReserveAuthority { reserve: Reserve::B, bump: derived_b->Some_0.1 },
                },
            },
        )
    }
}

/// What an invocation resolves to: the payload is decoded, then the decoded
/// operation is planned on the accounts.
pub open spec fn invocation_plan(
    payload: Seq<u8>,
    accounts: Seq<Account>,
    derived_a: Option<(Seq<u8>, u8)>,
    derived_b: Option<(Seq<u8>, u8)>,
) -> Result<Action, SwapError> {
    match decode(payload) {
        None => Err(SwapError::MalformedInstruction),
        Some(SwapInstruction::SwapAtoB { amount }) => match swap_plan(
            Direction::AtoB,
            accounts,
            amount,
        ) {
            Ok(settlement) => Ok(Action::Swap(settlement)),
            Err(e) => Err(e),
        },
        Some(SwapInstruction::SwapBtoA { amount }) => match swap_plan(
            Direction::BtoA,
            accounts,
            amount,
        ) {
            Ok(settlement) => Ok(Action::Swap(settlement)),
            Err(e) => Err(e),
        },
        Some(SwapInstruction::CreateAccounts { amount_a, amount_b }) => match provisioning_plan(
            accounts,
            amount_a,
            amount_b,
            derived_a,
            derived_b,
        ) {
            Ok(provisioning) => Ok(Action::CreateAccounts(provisioning)),
            Err(e) => Err(e),
        },
    }
}

/// A derivation as the contracts speak of it: the address by its bytes.
pub open spec fn derivation_view(derived: Option<(Address, u8)>) -> Option<(Seq<u8>, u8)> {
    match derived {
        Some((address, bump)) => Some((address@, bump)),
        None => None,
    }
}

/// Binds the accounts of a swap to their roles, checks that the payer signed,
/// and prices the swap on the reserve balances that the accounts show.
pub fn plan_swap(direction: Direction, accounts: &[Account], amount: u64) -> (result: Result<
    Settlement,
    SwapError,
>)
    ensures
        result == swap_plan(direction, accounts@, amount),
{
    if accounts.len() < ROLES {
        return Err(SwapError::InsufficientAccounts);
    }
    let balance_source: u64 = accounts[direction.source()].lamports;
    let balance_destination: u64 = accounts[direction.destination()].lamports;
    if !accounts[direction.payer()].is_signer {
        return Err(SwapError::MissingAuthorization);
    }
    match quote(balance_source, balance_destination, amount) {
        Ok(amount_out) => Ok(Settlement { direction, amount_in: amount, amount_out }),
        Err(e) => Err(e),
    }
}

/// Whether the derivation yields the supplied address; its bump if so.
fn matching_bump(derived: Option<(Address, u8)>, supplied: &Address) -> (bump: Option<u8>)
    ensures
        derives(derivation_view(derived), *supplied) ==> bump == Some(derived->Some_0.1),
        !derives(derivation_view(derived), *supplied) ==> bump is None,
{
    match derived {
        Some((address, bump)) => {
            proof {
                address.lemma_equal_by_bytes(*supplied);
            }
            if address == *supplied {
                Some(bump)
            } else {
                None
            }
        },
        None => None,
    }
}

/// Binds the accounts of a provisioning request to their roles, checks that the
/// payer signed, and holds the two supplied reserve addresses against the
/// derived ones. A derivation that found no address matches nothing.
pub fn plan_provisioning(
    accounts: &[Account],
    amount_a: u64,
    amount_b: u64,
    derived_a: Option<(Address, u8)>,
    derived_b: Option<(Address, u8)>,
) -> (result: Result<Provisioning, SwapError>)
    ensures
        result == provisioning_plan(
            accounts@,
            amount_a,
            amount_b,
            derivation_view(derived_a),
            derivation_view(derived_b),
        ),
{
    if accounts.len() < ROLES {
        return Err(SwapError::InsufficientAccounts);
    }
    if !accounts[PAYER].is_signer {
        return Err(SwapError::MissingAuthorization);
    }
    let address_a: Address = accounts[NEW_RESERVE_A].key;
    let address_b: Address = accounts[NEW_RESERVE_B].key;
    let bump_a: u8 = match matching_bump(derived_a, &address_a) {
        Some(bump) => bump,
        None => { return Err(SwapError::AddressMismatch); },
    };
    let bump_b: u8 = match matching_bump(derived_b, &address_b) {
        Some(bump) => bump,
        None => { return Err(SwapError::AddressMismatch); },
    };
    Ok(
        Provisioning {
            reserve_a: Creation {
                address: address_a,
                lamports: amount_a,
                authority: ReserveAuthority { reserve: Reserve::A, bump: bump_a },
            },
            reserve_b: Creation {
                address: address_b,
                lamports: amount_b,
                authority: ReserveAuthority { reserve: Reserve::B, bump: bump_b },
            },
        },
    )
}

/// Decodes the payload, binds the accounts to the roles of the decoded
/// operation, validates them, and returns what the host has to carry out.
/// The reserve addresses are derived from the two seed labels under
/// `program_id`.
pub fn process_instruction(program_id: &Address, accounts: &[Account], input: &[u8]) -> (result:
    Result<Action, SwapError>)
    ensures
        result == invocation_plan(
            input@,
            accounts@,
            program_address(Reserve::A.seed_bytes(), program_id@),
            program_address(Reserve::B.seed_bytes(), program_id@),
        ),
        decode(input@) is None ==> result == Err::<Action, SwapError>(
            SwapError::MalformedInstruction,
        ),
        decode(input@) is Some && accounts@.len() < ROLES ==> result == Err::<Action, SwapError>(
            SwapError::InsufficientAccounts,
        ),
        decode(input@) matches Some(instruction) && accounts@.len() >= ROLES
            && !accounts@[authorizer(instruction) as int].is_signer ==> result == Err::<
            Action,
            SwapError,
        >(SwapError::MissingAuthorization),
        decode(input@) matches Some(SwapInstruction::CreateAccounts { .. }) && accounts@.len()
            >= ROLES && accounts@[PAYER as int].is_signer && !(derives(
            program_address(Reserve::A.seed_bytes(), program_id@),
            accounts@[NEW_RESERVE_A as int].key,
        ) && derives(
            program_address(Reserve::B.seed_bytes(), program_id@),
            accounts@[NEW_RESERVE_B as int].key,
        )) ==> result == Err::<Action, SwapError>(SwapError::AddressMismatch),
{
    let instruction = match SwapInstruction::try_from_slice(input) {
        Ok(instruction) => instruction,
        Err(e) => { return Err(e); },
    };
    match instruction {
        SwapInstruction::SwapAtoB { amount } => {
            match plan_swap(Direction::AtoB, accounts, amount) {
                Ok(settlement) => Ok(Action::Swap(settlement)),
                Err(e) => Err(e),
            }
        },
        SwapInstruction::SwapBtoA { amount } => {
            match plan_swap(Direction::BtoA, accounts, amount) {
                Ok(settlement) => Ok(Action::Swap(settlement)),
                Err(e) => Err(e),
            }
        },
        SwapInstruction::CreateAccounts { amount_a, amount_b } => {
            let derived_a = find_program_address(Reserve::A.seed().as_bytes(), program_id);
            let derived_b = find_program_address(Reserve::B.seed().as_bytes(), program_id);
            match plan_provisioning(accounts, amount_a, amount_b, derived_a, derived_b) {
                Ok(provisioning) => Ok(Action::CreateAccounts(provisioning)),
                Err(e) => Err(e),
            }
        },
    }
}

} // verus!
