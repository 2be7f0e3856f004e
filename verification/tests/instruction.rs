use swap::{SwapError, SwapInstruction};

#[test]
fn decodes_swap_a_to_b() {
    let bytes = [0u8, 0xf4, 0x01, 0, 0, 0, 0, 0, 0];
    assert_eq!(SwapInstruction::try_from_slice(&bytes), Ok(SwapInstruction::SwapAtoB { amount: 500 }));
}

#[test]
fn decodes_swap_b_to_a() {
    let bytes = [1u8, 100, 0, 0, 0, 0, 0, 0, 0];
    assert_eq!(SwapInstruction::try_from_slice(&bytes), Ok(SwapInstruction::SwapBtoA { amount: 100 }));
}

#[test]
fn decodes_create_accounts() {
    let bytes = [2u8, 0xe8, 0x03, 0, 0, 0, 0, 0, 0, 0xd0, 0x07, 0, 0, 0, 0, 0, 0];
    assert_eq!(
        SwapInstruction::try_from_slice(&bytes),
        Ok(SwapInstruction::CreateAccounts { amount_a: 1000, amount_b: 2000 })
    );
}

#[test]
fn decodes_every_byte_of_a_field() {
    let bytes = [0u8, 0x08, 0x07, 0x06, 0x05, 0x04, 0x03, 0x02, 0x01];
    assert_eq!(
        SwapInstruction::try_from_slice(&bytes),
        Ok(SwapInstruction::SwapAtoB { amount: 0x0102_0304_0506_0708 })
    );
    let bytes = [1u8, 0xff, 0xff, 0xff, 0xff, 0xff, 0xff, 0xff, 0xff];
    assert_eq!(SwapInstruction::try_from_slice(&bytes), Ok(SwapInstruction::SwapBtoA { amount: u64::MAX }));
}

#[test]
fn rejects_empty_payload() {
    assert_eq!(SwapInstruction::try_from_slice(&[]), Err(SwapError::MalformedInstruction));
}

#[test]
fn rejects_unknown_tag() {
    let bytes = [3u8, 1, 0, 0, 0, 0, 0, 0, 0];
    assert_eq!(SwapInstruction::try_from_slice(&bytes), Err(SwapError::MalformedInstruction));
    let bytes = [255u8, 1, 0, 0, 0, 0, 0, 0, 0, 1, 0, 0, 0, 0, 0, 0, 0];
    assert_eq!(SwapInstruction::try_from_slice(&bytes), Err(SwapError::MalformedInstruction));
}

#[test]
fn rejects_short_payload() {
    assert_eq!(SwapInstruction::try_from_slice(&[0u8]), Err(SwapError::MalformedInstruction));
    let bytes = [0u8, 1, 0, 0, 0, 0, 0, 0];
    assert_eq!(SwapInstruction::try_from_slice(&bytes), Err(SwapError::MalformedInstruction));
    let bytes = [2u8, 1, 0, 0, 0, 0, 0, 0, 0];
    assert_eq!(SwapInstruction::try_from_slice(&bytes), Err(SwapError::MalformedInstruction));
    let bytes = [2u8, 1, 0, 0, 0, 0, 0, 0, 0, 1, 0, 0, 0, 0, 0, 0];
    assert_eq!(SwapInstruction::try_from_slice(&bytes), Err(SwapError::MalformedInstruction));
}

#[test]
fn rejects_trailing_bytes() {
    let bytes = [0u8, 1, 0, 0, 0, 0, 0, 0, 0, 0];
    assert_eq!(SwapInstruction::try_from_slice(&bytes), Err(SwapError::MalformedInstruction));
    let bytes = [1u8, 1, 0, 0, 0, 0, 0, 0, 0, 1, 0, 0, 0, 0, 0, 0, 0];
    assert_eq!(SwapInstruction::try_from_slice(&bytes), Err(SwapError::MalformedInstruction));
    let bytes = [2u8, 1, 0, 0, 0, 0, 0, 0, 0, 1, 0, 0, 0, 0, 0, 0, 0, 0];
    assert_eq!(SwapInstruction::try_from_slice(&bytes), Err(SwapError::MalformedInstruction));
}

#[test]
fn encodes_each_variant() {
    assert_eq!(SwapInstruction::SwapAtoB { amount: 500 }.to_bytes(), vec![0u8, 0xf4, 0x01, 0, 0, 0, 0, 0, 0]);
    assert_eq!(SwapInstruction::SwapBtoA { amount: 100 }.to_bytes(), vec![1u8, 100, 0, 0, 0, 0, 0, 0, 0]);
    assert_eq!(
        SwapInstruction::CreateAccounts { amount_a: 1000, amount_b: 2000 }.to_bytes(),
        vec![2u8, 0xe8, 0x03, 0, 0, 0, 0, 0, 0, 0xd0, 0x07, 0, 0, 0, 0, 0, 0]
    );
}

#[test]
fn decoding_undoes_encoding() {
    let instructions = [
        SwapInstruction::SwapAtoB { amount: 0 },
        SwapInstruction::SwapAtoB { amount: u64::MAX },
        SwapInstruction::SwapBtoA { amount: 0x0123_4567_89ab_cdef },
        SwapInstruction::CreateAccounts { amount_a: 1, amount_b: u64::MAX - 1 },
        SwapInstruction::CreateAccounts { amount_a: 0xfedc_ba98_7654_3210, amount_b: 256 },
    ];
    for instruction in instructions {
        assert_eq!(SwapInstruction::try_from_slice(&instruction.to_bytes()), Ok(instruction));
    }
}

#[test]
fn encoding_undoes_decoding() {
    let payloads: [&[u8]; 3] = [
        &[0u8, 9, 8, 7, 6, 5, 4, 3, 2],
        &[1u8, 0, 0, 0, 0, 0, 0, 0, 0x80],
        &[2u8, 1, 2, 3, 4, 5, 6, 7, 8, 0xff, 0xfe, 0xfd, 0xfc, 0xfb, 0xfa, 0xf9, 0xf8],
    ];
    for payload in payloads {
        let instruction = SwapInstruction::try_from_slice(payload).unwrap();
        assert_eq!(instruction.to_bytes(), payload.to_vec());
    }
}

#[test]
fn agrees_with_borsh_on_the_wire_format() {
    let amounts = [0u64, 1, 255, 256, 500, 0x0102_0304_0506_0708, u64::MAX];
    for amount in amounts {
        let forward = borsh::to_vec(&(0u8, amount)).unwrap();
        assert_eq!(SwapInstruction::SwapAtoB { amount }.to_bytes(), forward);
        assert_eq!(SwapInstruction::try_from_slice(&forward), Ok(SwapInstruction::SwapAtoB { amount }));

        let reverse = borsh::to_vec(&(1u8, amount)).unwrap();
        assert_eq!(SwapInstruction::SwapBtoA { amount }.to_bytes(), reverse);
        assert_eq!(SwapInstruction::try_from_slice(&reverse), Ok(SwapInstruction::SwapBtoA { amount }));

        let create = borsh::to_vec(&(2u8, amount, !amount)).unwrap();
        let instruction = SwapInstruction::CreateAccounts { amount_a: amount, amount_b: !amount };
        assert_eq!(instruction.to_bytes(), create);
        assert_eq!(SwapInstruction::try_from_slice(&create), Ok(instruction));
        assert_eq!(borsh::from_slice::<(u8, u64, u64)>(&instruction.to_bytes()).unwrap(), (2u8, amount, !amount));
    }
}
