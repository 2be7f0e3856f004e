use std::str::FromStr;

use solana_program::pubkey::Pubkey;
use swap::{
    process_instruction, Account, Action, Address, HostReply, Ledger, Reserve, SwapInstruction,
};

fn account(key: Address, is_signer: bool, lamports: u64) -> Account {
    Account { key, is_signer, lamports }
}

#[test]
fn test_swap() {
    let program_id = Pubkey::from_str("Swap111111111111111111111111111111111111111").unwrap();

    let (wallet_a_pubkey, bump_a) = Pubkey::find_program_address(&[b"wallet_a"], &program_id);
    let (wallet_b_pubkey, bump_b) = Pubkey::find_program_address(&[b"wallet_b"], &program_id);

    let program = Address::new(program_id.to_bytes());
    let wallet_a = Address::new(wallet_a_pubkey.to_bytes());
    let wallet_b = Address::new(wallet_b_pubkey.to_bytes());
    let wallet1 = Address::new([1u8; 32]);
    let wallet2 = Address::new([2u8; 32]);
    let system_program = Address::new([0u8; 32]);

    let mut ledger = Ledger { user_1: 1_000_000_000, user_2: 1_000_000_000, reserve_a: 0, reserve_b: 0 };

    // the two reserves are created with 1000 each, paid by the first wallet
    let input = SwapInstruction::CreateAccounts { amount_a: 1000, amount_b: 1000 }.to_bytes();
    let accounts = vec![
        account(wallet1, true, ledger.user_1),
        account(wallet_a, false, 0),
        account(wallet_b, false, 0),
        account(system_program, false, 1),
    ];
    let action = process_instruction(&program, &accounts, &input).unwrap();
    let provisioning = match action {
        Action::CreateAccounts(provisioning) => provisioning,
        Action::Swap(_) => panic!("a provisioning request resolved to a swap"),
    };
    assert_eq!(provisioning.reserve_a.address, wallet_a);
    assert_eq!(provisioning.reserve_a.authority.reserve, Reserve::A);
    assert_eq!(provisioning.reserve_a.authority.bump, bump_a);
    assert_eq!(provisioning.reserve_b.address, wallet_b);
    assert_eq!(provisioning.reserve_b.authority.reserve, Reserve::B);
    assert_eq!(provisioning.reserve_b.authority.bump, bump_b);
    assert_eq!(action.acknowledge(HostReply::Accepted), Ok(()));
    assert_eq!(action.acknowledge(HostReply::Accepted), Ok(()));
    ledger.user_1 -= provisioning.reserve_a.lamports + provisioning.reserve_b.lamports;
    ledger.reserve_a = provisioning.reserve_a.lamports;
    ledger.reserve_b = provisioning.reserve_b.lamports;

    assert_eq!(ledger.reserve_a, 1000);
    assert_eq!(ledger.reserve_b, 1000);

    // the first wallet swaps 500 from A to B
    let input = SwapInstruction::SwapAtoB { amount: 500 }.to_bytes();
    let accounts = vec![
        account(wallet1, true, ledger.user_1),
        account(wallet2, false, ledger.user_2),
        account(wallet_a, false, ledger.reserve_a),
        account(wallet_b, false, ledger.reserve_b),
        account(system_program, false, 1),
    ];
    let action = process_instruction(&program, &accounts, &input).unwrap();
    let settlement = match action {
        Action::Swap(settlement) => settlement,
        Action::CreateAccounts(_) => panic!("a swap resolved to a provisioning request"),
    };
    assert_eq!(action.acknowledge(HostReply::Accepted), Ok(()));
    ledger.settle(&settlement, HostReply::Accepted).unwrap();

    assert_eq!(ledger.reserve_a, 1500);
    assert_eq!(ledger.reserve_b, 667);

    // the second wallet swaps 100 from B to A
    let input = SwapInstruction::SwapBtoA { amount: 100 }.to_bytes();
    let accounts = vec![
        account(wallet1, false, ledger.user_1),
        account(wallet2, true, ledger.user_2),
        account(wallet_a, false, ledger.reserve_a),
        account(wallet_b, false, ledger.reserve_b),
        account(system_program, false, 1),
    ];
    let action = process_instruction(&program, &accounts, &input).unwrap();
    let settlement = match action {
        Action::Swap(settlement) => settlement,
        Action::CreateAccounts(_) => panic!("a swap resolved to a provisioning request"),
    };
    assert_eq!(action.acknowledge(HostReply::Accepted), Ok(()));
    ledger.settle(&settlement, HostReply::Accepted).unwrap();

    assert_eq!(ledger.reserve_a, 1305);
    assert_eq!(ledger.reserve_b, 767);

    assert_eq!(ledger.user_1, 1_000_000_000 - 2000 - 500 + 195);
    assert_eq!(ledger.user_2, 1_000_000_000 + 333 - 100);
}
