use solana_ffi::address::{
    derive_address, gateway_state_address, mint_authority_address, mint_log_address,
    program_derived_address, token_mint_address,
};
use solana_ffi::bundle::{BurnBundle, MintBundle};
use solana_ffi::burn::{burn_log_address, burn_log_seed, next_burn_count};
use solana_ffi::codec::{encode_msg, MintMessage, RENVM_MINT_MESSAGE_SIZE};
use solana_ffi::error::BridgeError;
use solana_ffi::hashing::selector_hash;
use solana_ffi::instruction::{AccountMeta, Instruction};
use solana_ffi::plan::{initialize_accounts, plan_burn, plan_mint};
use solana_ffi::token::{create_token_account_instruction, token_account_address, token_burn_instruction};
use solana_ffi::secp::{mint_secp_instruction, secp_instruction_data, SECP_PAYLOAD_SIZE};
use solana_sdk::pubkey::Pubkey;

const PROGRAM: [u8; 32] = [7u8; 32];

fn hex(s: &str) -> Vec<u8> {
    (0..s.len())
        .step_by(2)
        .map(|i| u8::from_str_radix(&s[i..i + 2], 16).unwrap())
        .collect()
}

fn sdk_address(seeds: &[&[u8]], program: &[u8; 32]) -> [u8; 32] {
    Pubkey::find_program_address(seeds, &Pubkey::new_from_array(*program)).0.to_bytes()
}

fn domain_instruction() -> Instruction {
    Instruction {
        program_id: PROGRAM,
        accounts: vec![AccountMeta { pubkey: [3u8; 32], is_signer: true, is_writable: true }],
        data: vec![9, 8, 7],
    }
}

fn sample_message() -> Vec<u8> {
    encode_msg(5, &[1u8; 32], &[2u8; 32], &[3u8; 32], &[4u8; 32])
}

#[test]
fn encode_msg_places_fields_in_order() {
    let m = encode_msg(0x0102030405060708, &[0xaa; 32], &[0xbb; 32], &[0xcc; 32], &[0xdd; 32]);
    assert_eq!(m.len(), 136);
    assert_eq!(&m[0..32], &[0xcc; 32]);
    assert_eq!(&m[32..40], &[8, 7, 6, 5, 4, 3, 2, 1]);
    assert_eq!(&m[40..72], &[0xaa; 32]);
    assert_eq!(&m[72..104], &[0xbb; 32]);
    assert_eq!(&m[104..136], &[0xdd; 32]);
}

#[test]
fn encode_msg_is_always_136_bytes() {
    assert_eq!(encode_msg(0, &[0; 32], &[0; 32], &[0; 32], &[0; 32]).len(), RENVM_MINT_MESSAGE_SIZE);
    let ff = encode_msg(u64::MAX, &[0xff; 32], &[0xff; 32], &[0xff; 32], &[0xff; 32]);
    assert_eq!(ff, vec![0xffu8; 136]);
    assert_eq!(encode_msg(0, &[0; 32], &[0; 32], &[0; 32], &[0; 32]), vec![0u8; 136]);
}

#[test]
fn decode_inverts_encode() {
    for (amount, fill) in [(0u64, 0u8), (1, 0x5a), (u64::MAX, 0xff), (100000000, 0x01)] {
        let message = MintMessage {
            p_hash: [fill; 32],
            amount,
            selector_hash: [fill.wrapping_add(1); 32],
            to: [fill.wrapping_add(2); 32],
            n_hash: [fill.wrapping_add(3); 32],
        };
        let bytes = message.to_bytes();
        assert_eq!(MintMessage::from_bytes(&bytes), Ok(message));
    }
}

#[test]
fn decode_rejects_other_widths() {
    assert_eq!(MintMessage::from_bytes(&[0u8; 135]), Err(BridgeError::SizeMismatch));
    assert_eq!(MintMessage::from_bytes(&[0u8; 137]), Err(BridgeError::SizeMismatch));
    assert_eq!(MintMessage::from_bytes(&[]), Err(BridgeError::SizeMismatch));
}

#[test]
fn selector_hash_is_keccak256() {
    assert_eq!(
        selector_hash(b"").unwrap().to_vec(),
        hex("c5d2460186f7233c927e7db2dcc703c0e500b653ca82273b7bfad8045d85a470")
    );
    assert_eq!(
        selector_hash(b"BTC/toSolana").unwrap().to_vec(),
        hex("16ac6fb8b800ff9e24220479d69d38b59a077966f500c7bbd3435dad78d8fc02")
    );
}

#[test]
fn selector_hash_rejects_invalid_utf8() {
    assert_eq!(selector_hash(&[0xff, 0xfe]), Err(BridgeError::Encoding));
}

#[test]
fn recovery_id_is_normalized() {
    let msg = sample_message();
    let d27 = secp_instruction_data(&[1; 32], &[2; 32], 27, &msg, &[9; 20]).unwrap();
    let d28 = secp_instruction_data(&[1; 32], &[2; 32], 28, &msg, &[9; 20]).unwrap();
    assert_eq!(d27[96], 0);
    assert_eq!(d28[96], 1);
}

#[test]
fn recovery_id_outside_range_is_rejected() {
    let msg = sample_message();
    for v in [0u8, 1, 26, 29, 255] {
        assert_eq!(
            secp_instruction_data(&[1; 32], &[2; 32], v, &msg, &[9; 20]),
            Err(BridgeError::InvalidRecoveryId)
        );
    }
}

#[test]
fn wrong_widths_are_size_mismatch() {
    let msg = sample_message();
    assert_eq!(
        secp_instruction_data(&[1; 32], &[2; 32], 27, &msg[..135], &[9; 20]),
        Err(BridgeError::SizeMismatch)
    );
    assert_eq!(
        secp_instruction_data(&[1; 32], &[2; 32], 27, &msg, &[9; 19]),
        Err(BridgeError::SizeMismatch)
    );
    assert_eq!(
        secp_instruction_data(&[1; 32], &[2; 32], 26, &msg, &[9; 21]),
        Err(BridgeError::SizeMismatch)
    );
}

#[test]
fn offsets_slice_back_to_inputs() {
    let msg = sample_message();
    let addr = [0x42u8; 20];
    let r = [0x10u8; 32];
    let s = [0x20u8; 32];
    let data = secp_instruction_data(&r, &s, 28, &msg, &addr).unwrap();
    assert_eq!(data.len(), SECP_PAYLOAD_SIZE);
    assert_eq!(data[0], 1);
    let u16_at = |i: usize| u16::from_le_bytes([data[i], data[i + 1]]) as usize;
    let sig_off = u16_at(1);
    let addr_off = u16_at(4);
    let msg_off = u16_at(7);
    let msg_len = u16_at(9);
    assert_eq!(&data[addr_off..addr_off + 20], &addr);
    let mut sig = r.to_vec();
    sig.extend_from_slice(&s);
    sig.push(1);
    assert_eq!(&data[sig_off..sig_off + 65], sig.as_slice());
    assert_eq!(&data[msg_off..msg_off + msg_len], msg.as_slice());
    assert_eq!((data[3], data[6], data[11]), (1, 1, 1));
}

#[test]
fn offsets_match_sdk_serialisation() {
    let offsets = solana_sdk::secp256k1_instruction::SecpSignatureOffsets {
        signature_offset: 32,
        signature_instruction_index: 1,
        eth_address_offset: 12,
        eth_address_instruction_index: 1,
        message_data_offset: 97,
        message_data_size: 136,
        message_instruction_index: 1,
    };
    let expected = bincode::serialize(&offsets).unwrap();
    let data = secp_instruction_data(&[1; 32], &[2; 32], 27, &sample_message(), &[9; 20]).unwrap();
    assert_eq!(&data[1..12], expected.as_slice());
}

#[test]
fn verification_instruction_targets_secp_program() {
    let ix = mint_secp_instruction(&[1; 32], &[2; 32], 27, &sample_message(), vec![9; 20]).unwrap();
    assert_eq!(ix.program_id, solana_sdk::secp256k1_program::id().to_bytes());
    assert!(ix.accounts.is_empty());
    assert_eq!(ix.data.len(), SECP_PAYLOAD_SIZE);
}

#[test]
fn golden_mint_scenario() {
    let sh = selector_hash(b"BTC/toSolana").unwrap();
    let mut to = [0u8; 32];
    to[0] = 1;
    let msg = encode_msg(100000000, &sh, &to, &[0; 32], &[0; 32]);
    let mut golden_msg = vec![0u8; 32];
    golden_msg.extend_from_slice(&hex("00e1f50500000000"));
    golden_msg.extend_from_slice(&hex(
        "16ac6fb8b800ff9e24220479d69d38b59a077966f500c7bbd3435dad78d8fc02",
    ));
    golden_msg.push(1);
    golden_msg.extend_from_slice(&[0u8; 31]);
    golden_msg.extend_from_slice(&[0u8; 32]);
    assert_eq!(msg, golden_msg);
    let message = MintMessage::from_bytes(&msg).unwrap();
    assert_eq!(
        message.digest().to_vec(),
        hex("a694a392128a597103c44a3ca89944d8cc7fad59fe9bb0e75f2532c907b6a3f3")
    );
    let data = secp_instruction_data(&[0x11; 32], &[0x22; 32], 28, &msg, &[0xab; 20]).unwrap();
    let mut golden = hex("012000010c00016100880001");
    golden.extend_from_slice(&[0xab; 20]);
    golden.extend_from_slice(&[0x11; 32]);
    golden.extend_from_slice(&[0x22; 32]);
    golden.push(1);
    golden.extend_from_slice(&golden_msg);
    assert_eq!(data, golden);
}

#[test]
fn derivation_is_deterministic() {
    let seeds = vec![b"GatewayState".to_vec(), vec![1, 2, 3]];
    let a = derive_address(&PROGRAM, &seeds).unwrap();
    let b = derive_address(&PROGRAM, &seeds).unwrap();
    assert_eq!(a, b);
    let (k, bump) = Pubkey::find_program_address(
        &[b"GatewayState", &[1, 2, 3]],
        &Pubkey::new_from_array(PROGRAM),
    );
    assert_eq!(a, (k.to_bytes(), bump));
}

#[test]
fn derivation_mutations_do_not_collide() {
    let base_seed = [0x33u8; 32];
    let mut seen = std::collections::HashSet::new();
    seen.insert(program_derived_address(&base_seed, &PROGRAM).unwrap());
    for i in 0..32 {
        for delta in [1u8, 0x80] {
            let mut seed = base_seed;
            seed[i] ^= delta;
            assert!(seen.insert(program_derived_address(&seed, &PROGRAM).unwrap()));
        }
    }
    for i in 0..32 {
        let mut program = PROGRAM;
        program[i] ^= 1;
        assert!(seen.insert(program_derived_address(&base_seed, &program).unwrap()));
    }
    assert_eq!(seen.len(), 1 + 64 + 32);
    for i in 0..8 {
        let mut seed = base_seed;
        seed[i] = seed[i].wrapping_add(7);
        assert!(seen.insert(program_derived_address(&seed, &PROGRAM).unwrap()));
    }
    assert!(seen.len() > 100);
}

#[test]
fn derivation_beyond_seed_limits_is_exhausted() {
    let many: Vec<Vec<u8>> = (0..16u8).map(|i| vec![i]).collect();
    assert_eq!(derive_address(&PROGRAM, &many), Err(BridgeError::DerivationExhausted));
    assert_eq!(program_derived_address(&[0u8; 33], &PROGRAM), Err(BridgeError::DerivationExhausted));
}

#[test]
fn named_addresses_match_sdk() {
    assert_eq!(gateway_state_address(&PROGRAM).unwrap(), sdk_address(&[b"GatewayState"], &PROGRAM));
    let sh = selector_hash(b"BTC/toSolana").unwrap();
    let mint = token_mint_address(&PROGRAM, &sh).unwrap();
    assert_eq!(mint, sdk_address(&[&sh], &PROGRAM));
    assert_eq!(mint_authority_address(&PROGRAM, &mint).unwrap(), sdk_address(&[&mint], &PROGRAM));
    assert_eq!(mint_log_address(&PROGRAM, &[5; 32]).unwrap(), sdk_address(&[&[5; 32]], &PROGRAM));
}

#[test]
fn mint_bundle_keeps_verification_second() {
    let msg = sample_message();
    let bundle = MintBundle::new(domain_instruction(), &[1; 32], &[2; 32], 27, &msg, vec![9; 20]).unwrap();
    let ixs = bundle.into_instructions();
    assert_eq!(ixs.len(), 2);
    assert_eq!(ixs[0], domain_instruction());
    let verification = &ixs[1];
    assert_eq!(verification.program_id, solana_sdk::secp256k1_program::id().to_bytes());
    for idx in [verification.data[3], verification.data[6], verification.data[11]] {
        assert_eq!(idx as usize, 1);
        assert_eq!(&ixs[idx as usize], verification);
    }
    let swapped = vec![ixs[1].clone(), ixs[0].clone()];
    assert_ne!(swapped[swapped[0].data[3] as usize], swapped[0]);
}

#[test]
fn mint_bundle_fails_like_builder() {
    let msg = sample_message();
    assert!(matches!(
        MintBundle::new(domain_instruction(), &[1; 32], &[2; 32], 29, &msg, vec![9; 20]),
        Err(BridgeError::InvalidRecoveryId)
    ));
    assert!(matches!(
        MintBundle::new(domain_instruction(), &[1; 32], &[2; 32], 27, &msg, vec![9; 32]),
        Err(BridgeError::SizeMismatch)
    ));
}

#[test]
fn burn_bundle_keeps_token_burn_first() {
    let burn_log = domain_instruction();
    let ixs = BurnBundle::new(&[1; 32], &[2; 32], &[3; 32], 500, burn_log.clone()).into_instructions();
    assert_eq!(ixs.len(), 2);
    assert_eq!(ixs[0], token_burn_instruction(&[2; 32], &[3; 32], &[1; 32], 500));
    assert_eq!(ixs[1], burn_log);
}

#[test]
fn token_burn_matches_token_program() {
    let ix = token_burn_instruction(&[2; 32], &[3; 32], &[1; 32], 0x0102);
    assert_eq!(ix.program_id, spl_token::id().to_bytes());
    assert_eq!(ix.data, vec![15, 2, 1, 0, 0, 0, 0, 0, 0, 9]);
    assert_eq!(
        ix.accounts,
        vec![
            AccountMeta { pubkey: [2; 32], is_signer: false, is_writable: true },
            AccountMeta { pubkey: [3; 32], is_signer: false, is_writable: true },
            AccountMeta { pubkey: [1; 32], is_signer: true, is_writable: false },
        ]
    );
}

#[test]
fn token_account_is_associated_address() {
    let wallet = [4u8; 32];
    let mint = [5u8; 32];
    let expected = sdk_address(
        &[&wallet, &spl_token::id().to_bytes(), &mint],
        &spl_associated_token_account::id().to_bytes(),
    );
    assert_eq!(token_account_address(&wallet, &mint).unwrap(), expected);
    let ix = create_token_account_instruction(&wallet, &mint).unwrap();
    assert_eq!(ix.program_id, spl_associated_token_account::id().to_bytes());
    assert_eq!(ix.accounts.len(), 7);
    assert_eq!(ix.accounts[0], AccountMeta { pubkey: wallet, is_signer: true, is_writable: true });
    assert_eq!(ix.accounts[1], AccountMeta { pubkey: expected, is_signer: false, is_writable: true });
    assert_eq!(ix.accounts[4].pubkey, [0u8; 32]);
    assert_eq!(ix.accounts[6].pubkey, solana_sdk::sysvar::rent::id().to_bytes());
    assert!(ix.data.is_empty());
}

#[test]
fn burn_count_is_incremented_once() {
    assert_eq!(next_burn_count(0), 1);
    assert_eq!(next_burn_count(41), 42);
    assert_eq!(next_burn_count(u64::MAX - 1), u64::MAX);
}

#[test]
fn burn_log_seed_is_little_endian() {
    assert_eq!(burn_log_seed(0x0102), vec![2, 1, 0, 0, 0, 0, 0, 0]);
    assert_eq!(burn_log_seed(u64::MAX), vec![0xff; 8]);
    assert_eq!(
        burn_log_address(&PROGRAM, 42).unwrap(),
        sdk_address(&[&42u64.to_le_bytes()], &PROGRAM)
    );
}

#[test]
fn mint_plan_links_message_and_accounts() {
    let payer = [6u8; 32];
    let plan = plan_mint(&PROGRAM, b"BTC/toSolana", &payer, 100000000, &[0; 32], &[0; 32]).unwrap();
    let sh = selector_hash(b"BTC/toSolana").unwrap();
    assert_eq!(plan.selector_hash, sh);
    assert_eq!(plan.gateway_state, sdk_address(&[b"GatewayState"], &PROGRAM));
    assert_eq!(plan.token_mint, sdk_address(&[&sh], &PROGRAM));
    assert_eq!(plan.mint_authority, sdk_address(&[&plan.token_mint], &PROGRAM));
    assert_eq!(plan.token_account, token_account_address(&payer, &plan.token_mint).unwrap());
    assert_eq!(plan.message.to, plan.token_account);
    let expected = encode_msg(100000000, &sh, &plan.token_account, &[0; 32], &[0; 32]);
    assert_eq!(plan.message_bytes, expected);
    assert_eq!(plan.message_digest, MintMessage::from_bytes(&expected).unwrap().digest());
    assert_eq!(plan.mint_log, sdk_address(&[&plan.message_digest], &PROGRAM));
    assert!(matches!(
        plan_mint(&PROGRAM, &[0xff], &payer, 1, &[0; 32], &[0; 32]),
        Err(BridgeError::Encoding)
    ));
}

#[test]
fn burn_and_initialize_plans_name_accounts() {
    let payer = [6u8; 32];
    let init = initialize_accounts(&PROGRAM, b"BTC/toSolana").unwrap();
    let burn = plan_burn(&PROGRAM, b"BTC/toSolana", &payer, 3).unwrap();
    assert_eq!(init.gateway_state, burn.gateway_state);
    assert_eq!(init.token_mint, burn.token_mint);
    assert_eq!(burn.token_account, token_account_address(&payer, &init.token_mint).unwrap());
    assert_eq!(burn.burn_log, sdk_address(&[&3u64.to_le_bytes()], &PROGRAM));
    assert!(matches!(plan_burn(&PROGRAM, &[0xc3], &payer, 3), Err(BridgeError::Encoding)));
}
