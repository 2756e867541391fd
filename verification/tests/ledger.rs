use jito_bundle::ledger::{
    fits_one_message, only_signer, pubkey_from_str, pubkey_to_string, AccountMeta, Blockhash,
    Instruction, Keypair, Pubkey, SignedTransaction, SigningError,
};
use jito_bundle::tool::{system_transfer_instruction, token_transfer_instruction};
use jito_bundle::JitoError;
use solana_sdk::signer::Signer;

const TOKEN_PROGRAM: [u8; 32] = [
    6, 221, 246, 225, 215, 101, 161, 147, 217, 203, 225, 70, 206, 235, 121, 172, 28, 180, 133, 237,
    95, 91, 55, 145, 58, 140, 245, 133, 126, 255, 0, 169,
];

fn key(byte: u8) -> Pubkey {
    Pubkey::new_from_array([byte; 32])
}

#[test]
fn wallet_address_is_the_one_the_sdk_derives() {
    let secret = [7u8; 32];
    let ours = Keypair::new_from_array(secret).pubkey();
    let theirs = solana_sdk::signature::Keypair::new_from_array(secret).pubkey();
    assert_eq!(ours.bytes, theirs.to_bytes());
    assert_ne!(ours.bytes, secret);
}

#[test]
fn address_text_is_base58() {
    assert_eq!(
        pubkey_to_string(&Pubkey::new_from_array(TOKEN_PROGRAM)),
        "TokenkegQfeZyiNwAJbNbGKPFXCWuBvf9Ss623VQ5DA"
    );
    assert_eq!(pubkey_to_string(&key(0)), "11111111111111111111111111111111");
}

#[test]
fn address_is_read_back_from_its_text() {
    let read = pubkey_from_str("TokenkegQfeZyiNwAJbNbGKPFXCWuBvf9Ss623VQ5DA");
    assert_eq!(read, Ok(Pubkey::new_from_array(TOKEN_PROGRAM)));
    let again = pubkey_from_str(&pubkey_to_string(&key(200)));
    assert_eq!(again, Ok(key(200)));
}

#[test]
fn unreadable_address_is_a_serialization_error() {
    assert!(matches!(pubkey_from_str("not an address"), Err(JitoError::SerializationError(_))));
    assert!(matches!(pubkey_from_str(""), Err(JitoError::SerializationError(_))));
    assert!(matches!(pubkey_from_str("abc"), Err(JitoError::SerializationError(_))));
}

#[test]
fn addresses_compare_by_their_bytes() {
    let mut bytes = [5u8; 32];
    assert!(key(5).same_as(&Pubkey::new_from_array(bytes)));
    bytes[31] = 6;
    assert!(!key(5).same_as(&Pubkey::new_from_array(bytes)));
    assert!(Blockhash::new_from_array([1; 32]).same_as(&Blockhash::new_from_array([1; 32])));
    assert!(!Blockhash::new_from_array([1; 32]).same_as(&Blockhash::new_from_array([2; 32])));
}

#[test]
fn system_transfer_is_laid_out_as_stated() {
    let ix = system_transfer_instruction(&key(1), &key(2), 5);
    assert_eq!(ix.program_id, key(0));
    assert_eq!(
        ix.accounts,
        vec![
            AccountMeta { pubkey: key(1), is_signer: true, is_writable: true },
            AccountMeta { pubkey: key(2), is_signer: false, is_writable: true },
        ]
    );
    assert_eq!(ix.data, vec![2, 0, 0, 0, 5, 0, 0, 0, 0, 0, 0, 0]);
    let large = system_transfer_instruction(&key(1), &key(2), 0x0102_0304_0506_0708);
    assert_eq!(large.data, vec![2, 0, 0, 0, 8, 7, 6, 5, 4, 3, 2, 1]);
}

#[test]
fn token_transfer_is_laid_out_as_stated() {
    let ix = token_transfer_instruction(&key(1), &key(2), &key(3), 258).unwrap();
    assert_eq!(ix.program_id, Pubkey::new_from_array(TOKEN_PROGRAM));
    assert_eq!(
        ix.accounts,
        vec![
            AccountMeta { pubkey: key(1), is_signer: false, is_writable: true },
            AccountMeta { pubkey: key(2), is_signer: false, is_writable: true },
            AccountMeta { pubkey: key(3), is_signer: true, is_writable: false },
        ]
    );
    assert_eq!(ix.data, vec![3, 2, 1, 0, 0, 0, 0, 0, 0]);
}

#[test]
fn signed_transaction_is_the_one_the_sdk_signs() {
    let secret = [7u8; 32];
    let wallet = Keypair::new_from_array(secret);
    let hash = Blockhash::new_from_array([3u8; 32]);
    let instructions = vec![system_transfer_instruction(&wallet.pubkey(), &key(9), 42)];
    let ours = SignedTransaction::new(&wallet, &instructions, &hash).unwrap();

    let sdk_wallet = solana_sdk::signature::Keypair::new_from_array(secret);
    let sdk_hash = solana_sdk::hash::Hash::new_from_array([3u8; 32]);
    let sdk_ix = solana_system_interface::instruction::transfer(
        &sdk_wallet.pubkey(),
        &solana_sdk::pubkey::Pubkey::new_from_array([9u8; 32]),
        42,
    );
    let message = solana_sdk::message::Message::new_with_blockhash(
        &[sdk_ix],
        Some(&sdk_wallet.pubkey()),
        &sdk_hash,
    );
    let theirs = solana_sdk::transaction::Transaction::new(&[&sdk_wallet], message, sdk_hash);

    assert_eq!(ours.message, theirs.message_data());
    assert_eq!(ours.signatures.len(), 1);
    assert_eq!(theirs.signatures.len(), 1);
    assert_eq!(ours.signatures[0].to_vec(), theirs.signatures[0].as_ref().to_vec());
    assert_eq!(ours.recent_blockhash, hash);
    assert!(theirs.signatures[0].verify(sdk_wallet.pubkey().as_ref(), &ours.message));
}

#[test]
fn message_of_a_transfer_has_the_known_layout() {
    let wallet = Keypair::new_from_array([7u8; 32]);
    let payer = wallet.pubkey();
    let hash = Blockhash::new_from_array([3u8; 32]);
    let instructions = vec![system_transfer_instruction(&payer, &key(9), 42)];
    let tx = SignedTransaction::new(&wallet, &instructions, &hash).unwrap();
    let mut expected: Vec<u8> = vec![1, 0, 1, 3];
    expected.extend_from_slice(&payer.bytes);
    expected.extend_from_slice(&[9u8; 32]);
    expected.extend_from_slice(&[0u8; 32]);
    expected.extend_from_slice(&[3u8; 32]);
    expected.extend_from_slice(&[1, 2, 2, 0, 1, 12, 2, 0, 0, 0, 42, 0, 0, 0, 0, 0, 0, 0]);
    assert_eq!(tx.message, expected);
}

#[test]
fn signature_depends_on_the_message() {
    let wallet = Keypair::new_from_array([7u8; 32]);
    let hash = Blockhash::new_from_array([3u8; 32]);
    let one = vec![system_transfer_instruction(&wallet.pubkey(), &key(9), 1)];
    let two = vec![system_transfer_instruction(&wallet.pubkey(), &key(9), 2)];
    let first = SignedTransaction::new(&wallet, &one, &hash).unwrap();
    let second = SignedTransaction::new(&wallet, &two, &hash).unwrap();
    let first_again = SignedTransaction::new(&wallet, &one, &hash).unwrap();
    assert_ne!(first.signatures, second.signatures);
    assert_eq!(first, first_again);
}

#[test]
fn foreign_signer_is_refused() {
    let wallet = Keypair::new_from_array([7u8; 32]);
    let hash = Blockhash::new_from_array([3u8; 32]);
    let instructions = vec![system_transfer_instruction(&key(8), &key(9), 42)];
    assert!(!only_signer(&instructions, &wallet.pubkey()));
    assert!(only_signer(&instructions, &key(8)));
    assert_eq!(
        SignedTransaction::new(&wallet, &instructions, &hash),
        Err(SigningError::ForeignSigner)
    );
}

fn numbered(n: u16) -> Pubkey {
    let mut bytes = [9u8; 32];
    bytes[0] = (n & 0xff) as u8;
    bytes[1] = (n >> 8) as u8;
    Pubkey::new_from_array(bytes)
}

fn reader(n: u16) -> AccountMeta {
    AccountMeta { pubkey: numbered(n), is_signer: false, is_writable: false }
}

fn sdk_transaction(
    secret: [u8; 32],
    instructions: &[Instruction],
    hash: [u8; 32],
) -> solana_sdk::transaction::Transaction {
    let wallet = solana_sdk::signature::Keypair::new_from_array(secret);
    let hash = solana_sdk::hash::Hash::new_from_array(hash);
    let outside: Vec<solana_sdk::message::Instruction> = instructions
        .iter()
        .map(|ix| solana_sdk::message::Instruction {
            program_id: solana_sdk::pubkey::Pubkey::new_from_array(ix.program_id.bytes),
            accounts: ix
                .accounts
                .iter()
                .map(|a| solana_sdk::message::AccountMeta {
                    pubkey: solana_sdk::pubkey::Pubkey::new_from_array(a.pubkey.bytes),
                    is_signer: a.is_signer,
                    is_writable: a.is_writable,
                })
                .collect(),
            data: ix.data.clone(),
        })
        .collect();
    let message =
        solana_sdk::message::Message::new_with_blockhash(&outside, Some(&wallet.pubkey()), &hash);
    solana_sdk::transaction::Transaction::new(&[&wallet], message, hash)
}

fn assert_signed_as_the_sdk_signs(instructions: &Vec<Instruction>) {
    let wallet = Keypair::new_from_array([7u8; 32]);
    let hash = Blockhash::new_from_array([3u8; 32]);
    assert!(fits_one_message(instructions, &wallet.pubkey()));
    let ours = SignedTransaction::new(&wallet, instructions, &hash).unwrap();
    let theirs = sdk_transaction([7u8; 32], instructions, [3u8; 32]);
    assert_eq!(ours.message, theirs.message_data());
    let signatures: Vec<Vec<u8>> = theirs.signatures.iter().map(|s| s.as_ref().to_vec()).collect();
    let ours_signatures: Vec<Vec<u8>> = ours.signatures.iter().map(|s| s.to_vec()).collect();
    assert_eq!(ours_signatures, signatures);
    assert_eq!(ours.signatures.len(), 1);
}

#[test]
fn lists_longer_than_two_bytes_can_tell_are_refused() {
    let wallet = Keypair::new_from_array([7u8; 32]);
    let hash = Blockhash::new_from_array([3u8; 32]);
    let long_data =
        vec![Instruction { program_id: key(1), accounts: vec![], data: vec![0u8; 0x1_0000] }];
    assert!(!fits_one_message(&long_data, &wallet.pubkey()));
    assert_eq!(SignedTransaction::new(&wallet, &long_data, &hash), Err(SigningError::TooLarge));

    let many_accounts =
        vec![Instruction { program_id: key(1), accounts: vec![reader(1); 0x1_0000], data: vec![] }];
    assert!(!fits_one_message(&many_accounts, &wallet.pubkey()));
    assert_eq!(
        SignedTransaction::new(&wallet, &many_accounts, &hash),
        Err(SigningError::TooLarge)
    );

    let bare = Instruction { program_id: key(1), accounts: vec![], data: vec![] };
    let many_instructions = vec![bare; 0x1_0000];
    assert!(!fits_one_message(&many_instructions, &wallet.pubkey()));
    assert_eq!(
        SignedTransaction::new(&wallet, &many_instructions, &hash),
        Err(SigningError::TooLarge)
    );
}

#[test]
fn more_addresses_than_a_byte_can_index_are_refused() {
    let wallet = Keypair::new_from_array([7u8; 32]);
    let hash = Blockhash::new_from_array([3u8; 32]);
    // the payer, the program and 255 accounts: 257 addresses
    let accounts: Vec<AccountMeta> = (0..255).map(reader).collect();
    let instructions = vec![Instruction { program_id: key(1), accounts, data: vec![] }];
    assert!(!fits_one_message(&instructions, &wallet.pubkey()));
    assert_eq!(SignedTransaction::new(&wallet, &instructions, &hash), Err(SigningError::TooLarge));
    // 257 programs, spread over as many instructions
    let programs: Vec<Instruction> = (0..256)
        .map(|n| Instruction { program_id: numbered(n), accounts: vec![], data: vec![] })
        .collect();
    assert!(!fits_one_message(&programs, &wallet.pubkey()));
}

#[test]
fn more_signers_than_a_byte_can_count_are_refused() {
    let wallet = Keypair::new_from_array([7u8; 32]);
    // the payer and 255 signing accounts, one of them the program: 256 addresses, all signers
    let accounts: Vec<AccountMeta> = (0..255)
        .map(|n| AccountMeta { pubkey: numbered(n), is_signer: true, is_writable: false })
        .collect();
    let all_sign = vec![Instruction { program_id: numbered(0), accounts, data: vec![] }];
    assert!(!fits_one_message(&all_sign, &wallet.pubkey()));
    // one signer fewer fits, though it asks for foreign signatures
    let accounts: Vec<AccountMeta> = (0..254)
        .map(|n| AccountMeta { pubkey: numbered(n), is_signer: true, is_writable: false })
        .collect();
    let most_sign = vec![Instruction { program_id: numbered(0), accounts, data: vec![] }];
    assert!(fits_one_message(&most_sign, &wallet.pubkey()));
    assert_eq!(
        SignedTransaction::new(&wallet, &most_sign, &Blockhash::new_from_array([3u8; 32])),
        Err(SigningError::ForeignSigner)
    );
}

#[test]
fn as_many_addresses_as_a_byte_can_index_are_signed() {
    // the payer, the program and 254 accounts: 256 addresses
    let accounts: Vec<AccountMeta> = (0..254).map(reader).collect();
    let instructions = vec![Instruction { program_id: key(1), accounts, data: vec![1u8; 0xffff] }];
    assert_signed_as_the_sdk_signs(&instructions);
}

#[test]
fn repeated_addresses_count_once() {
    // one account named 254 times
    let repeated =
        vec![Instruction { program_id: key(1), accounts: vec![reader(2); 254], data: vec![] }];
    assert_signed_as_the_sdk_signs(&repeated);
    // one account named more often than a byte can count
    let often =
        vec![Instruction { program_id: key(1), accounts: vec![reader(2); 1_000], data: vec![] }];
    assert_signed_as_the_sdk_signs(&often);
    // 255 instructions of one program, without accounts
    let bare = Instruction { program_id: key(1), accounts: vec![], data: vec![] };
    assert_signed_as_the_sdk_signs(&vec![bare.clone(); 255]);
    // the payer named as an account, and the program named as an account
    let payer = Keypair::new_from_array([7u8; 32]).pubkey();
    let own = vec![Instruction {
        program_id: key(1),
        accounts: vec![
            AccountMeta { pubkey: payer, is_signer: true, is_writable: false },
            AccountMeta { pubkey: key(1), is_signer: false, is_writable: true },
        ],
        data: vec![5],
    }];
    assert_signed_as_the_sdk_signs(&own);
}

#[test]
fn no_instructions_are_signed() {
    let wallet = Keypair::new_from_array([7u8; 32]);
    let none: Vec<Instruction> = vec![];
    assert!(only_signer(&none, &wallet.pubkey()));
    assert_signed_as_the_sdk_signs(&none);
}
