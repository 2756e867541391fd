//! The ledger's values as plain bytes, and the calls into the ledger's SDK
//! that compile, sign and address them.

use crate::types::JitoError;
use solana_sdk::message::{AccountMeta as SdkAccountMeta, Instruction as SdkInstruction, Message};
use solana_sdk::signature::Keypair as SdkKeypair;
use solana_sdk::signer::Signer;
use solana_sdk::transaction::Transaction;
use vstd::bytes::spec_u64_to_le_bytes;
use vstd::prelude::*;
use vstd::seq_lib::seq_to_set_is_finite;
use vstd::set_lib::lemma_len_subset;

verus! {

// ============== plain values ==============
/// A 32-byte account address.
#[derive(Debug, Clone, Copy, PartialEq, Eq)]
pub struct Pubkey {
    pub bytes: [u8; 32],
}

impl View for Pubkey {
    type V = Seq<u8>;

    open spec fn view(&self) -> Seq<u8> {
        self.bytes@
    }
}

/// The reference hash that ties a transaction to a point of the ledger.
#[derive(Debug, Clone, Copy, PartialEq, Eq)]
pub struct Blockhash {
    pub bytes: [u8; 32],
}

impl View for Blockhash {
    type V = Seq<u8>;

    open spec fn view(&self) -> Seq<u8> {
        self.bytes@
    }
}

/// One account an instruction touches.
#[derive(Debug, Clone, Copy, PartialEq, Eq)]
pub struct AccountMeta {
    pub pubkey: Pubkey,
    pub is_signer: bool,
    pub is_writable: bool,
}

pub ghost struct AccountMetaView {
    pub pubkey: Seq<u8>,
    pub is_signer: bool,
    pub is_writable: bool,
}

impl View for AccountMeta {
    type V = AccountMetaView;

    open spec fn view(&self) -> AccountMetaView {
        AccountMetaView {
            pubkey: self.pubkey@,
            is_signer: self.is_signer,
            is_writable: self.is_writable,
        }
    }
}

/// A call of one on-chain program.
#[derive(Debug, Clone, PartialEq, Eq)]
pub struct Instruction {
    pub program_id: Pubkey,
    pub accounts: Vec<AccountMeta>,
    pub data: Vec<u8>,
}

pub ghost struct InstructionView {
    pub program_id: Seq<u8>,
    pub accounts: Seq<AccountMetaView>,
    pub data: Seq<u8>,
}

impl View for Instruction {
    type V = InstructionView;

    open spec fn view(&self) -> InstructionView {
        InstructionView {
            program_id: self.program_id@,
            accounts: self.accounts@.map_values(|a: AccountMeta| a@),
            data: self.data@,
        }
    }
}

/// The views of a list of instructions, in order.
pub open spec fn instruction_views(instructions: Seq<Instruction>) -> Seq<InstructionView> {
    instructions.map_values(|ix: Instruction| ix@)
}

/// A signed transaction as the relay reads it: its signatures in order, the
/// serialized message they sign, and the reference hash the message carries.
#[derive(Debug, Clone, PartialEq, Eq)]
pub struct SignedTransaction {
    pub signatures: Vec<[u8; 64]>,
    pub message: Vec<u8>,
    pub recent_blockhash: Blockhash,
}

pub ghost struct SignedTransactionView {
    pub signatures: Seq<Seq<u8>>,
    pub message: Seq<u8>,
    pub recent_blockhash: Seq<u8>,
}

impl View for SignedTransaction {
    type V = SignedTransactionView;

    open spec fn view(&self) -> SignedTransactionView {
        SignedTransactionView {
            signatures: self.signatures@.map_values(|s: [u8; 64]| s@),
            message: self.message@,
            recent_blockhash: self.recent_blockhash@,
        }
    }
}

/// The secret half of a wallet; its address is derived from it.
#[derive(Clone, Copy)]
pub struct Keypair {
    secret: [u8; 32],
}

fn same_bytes(a: &[u8; 32], b: &[u8; 32]) -> (r: bool)
    ensures
        r == (a@ == b@),
{
    let mut i: usize = 0;
    while i < 32
        invariant
            i <= 32,
            forall|k: int| 0 <= k < i ==> a@[k] == b@[k],
        decreases 32 - i,
    {
        if a[i] != b[i] {
            return false;
        }
        i += 1;
    }
    assert(a@ =~= b@);
    true
}

impl Pubkey {
    pub fn new_from_array(bytes: [u8; 32]) -> (pk: Pubkey)
        ensures
            pk.bytes == bytes,
    {
        Pubkey { bytes }
    }

    /// Whether two addresses hold the same bytes.
    pub fn same_as(&self, other: &Pubkey) -> (r: bool)
        ensures
            r == (self@ == other@),
    {
        same_bytes(&self.bytes, &other.bytes)
    }
}

impl Blockhash {
    pub fn new_from_array(bytes: [u8; 32]) -> (h: Blockhash)
        ensures
            h.bytes == bytes,
    {
        Blockhash { bytes }
    }

    /// Whether two hashes hold the same bytes.
    pub fn same_as(&self, other: &Blockhash) -> (r: bool)
        ensures
            r == (self@ == other@),
    {
        same_bytes(&self.bytes, &other.bytes)
    }
}

/// The bytes of an address that may be absent.
pub open spec fn optional_pubkey_view(pk: Option<Pubkey>) -> Option<Seq<u8>> {
    match pk {
        Some(pk) => Some(pk@),
        None => None,
    }
}

// ============== the SDK's results, by name ==============
/// The address that the SDK derives from a wallet's secret bytes.
pub uninterp spec fn ed25519_pubkey(secret: Seq<u8>) -> Seq<u8>;

/// The signature that a wallet with these secret bytes puts on a
/// transaction with this serialized message.
pub uninterp spec fn ed25519_signature(secret: Seq<u8>, message: Seq<u8>) -> Seq<u8>;

/// The serialized message of the transaction that the SDK makes of a fee
/// payer, a list of instructions and a reference hash.
pub uninterp spec fn message_bytes(
    payer: Seq<u8>,
    instructions: Seq<InstructionView>,
    blockhash: Seq<u8>,
) -> Seq<u8>;

/// The text form that the SDK gives an address.
pub uninterp spec fn base58_text(address: Seq<u8>) -> Seq<char>;

/// The address that the SDK reads from a text, if it reads one.
pub uninterp spec fn base58_address(text: Seq<char>) -> Option<Seq<u8>>;

// ============== what the SDK's instruction builders produce ==============
/// The address of the system program: thirty-two zero bytes.
pub open spec fn system_program_id() -> Seq<u8> {
    Seq::new(32, |i: int| 0u8)
}

/// The address of the token program.
pub open spec fn spec_token_program_id() -> Seq<u8> {
    seq![
        6u8, 221, 246, 225, 215, 101, 161, 147, 217, 203, 225, 70, 206, 235, 121, 172,
        28, 180, 133, 237, 95, 91, 55, 145, 58, 140, 245, 133, 126, 255, 0, 169,
    ]
}

/// A transfer of native lamports: the sender signs and is debited, the
/// receiver is credited; the data is the transfer tag followed by the amount.
pub open spec fn system_transfer_view(from: Seq<u8>, to: Seq<u8>, lamports: u64) -> InstructionView {
    InstructionView {
        program_id: system_program_id(),
        accounts: seq![
            AccountMetaView { pubkey: from, is_signer: true, is_writable: true },
            AccountMetaView { pubkey: to, is_signer: false, is_writable: true },
        ],
        data: seq![2u8, 0u8, 0u8, 0u8] + spec_u64_to_le_bytes(lamports),
    }
}

/// A token transfer authorised by a single owner: source and destination are
/// writable, the owner signs; the data is the transfer tag followed by the amount.
pub open spec fn token_transfer_view(
    source: Seq<u8>,
    destination: Seq<u8>,
    authority: Seq<u8>,
    amount: u64,
) -> InstructionView {
    InstructionView {
        program_id: spec_token_program_id(),
        accounts: seq![
            AccountMetaView { pubkey: source, is_signer: false, is_writable: true },
            AccountMetaView { pubkey: destination, is_signer: false, is_writable: true },
            AccountMetaView { pubkey: authority, is_signer: true, is_writable: false },
        ],
        data: seq![3u8] + spec_u64_to_le_bytes(amount),
    }
}

// ============== limits of message compilation ==============
/// The most addresses a message can name: its instructions point at them
/// with one byte.
pub const MAX_ADDRESSES: usize = 256;

/// The most addresses a message can ask to sign: it counts them in one byte.
pub const MAX_SIGNERS: usize = 255;

/// The longest list whose length a message writes in two bytes.
pub const MAX_SHORT_LEN: usize = 0xffff;

/// The views of a list of addresses, in order.
pub open spec fn key_views(keys: Seq<Pubkey>) -> Seq<Seq<u8>> {
    keys.map_values(|k: Pubkey| k@)
}

/// The addresses of a list of accounts, in order.
pub open spec fn account_addresses(accounts: Seq<AccountMetaView>) -> Seq<Seq<u8>> {
    accounts.map_values(|a: AccountMetaView| a.pubkey)
}

/// The addresses of the accounts of a list that must sign, in order.
pub open spec fn signer_addresses(accounts: Seq<AccountMetaView>) -> Seq<Seq<u8>> {
    account_addresses(accounts.filter(|a: AccountMetaView| a.is_signer))
}

/// Every mention of an address in a list of instructions, in order: each
/// instruction's program, then its accounts.
pub open spec fn named_addresses(instructions: Seq<InstructionView>) -> Seq<Seq<u8>>
    decreases instructions.len(),
{
    if instructions.len() == 0 {
        Seq::empty()
    } else {
        named_addresses(instructions.drop_last()).push(instructions.last().program_id)
            + account_addresses(instructions.last().accounts)
    }
}

/// Every mention of an account that must sign, in order.
pub open spec fn signing_addresses(instructions: Seq<InstructionView>) -> Seq<Seq<u8>>
    decreases instructions.len(),
{
    if instructions.len() == 0 {
        Seq::empty()
    } else {
        signing_addresses(instructions.drop_last()) + signer_addresses(
            instructions.last().accounts,
        )
    }
}

/// The distinct addresses of a message: the fee payer, and every program
/// and account that its instructions name.
pub open spec fn message_addresses(payer: Seq<u8>, instructions: Seq<InstructionView>) -> Set<
    Seq<u8>,
> {
    named_addresses(instructions).to_set().insert(payer)
}

/// The distinct addresses that a message asks to sign: the fee payer, and
/// every account that an instruction marks as signer.
pub open spec fn message_signers(payer: Seq<u8>, instructions: Seq<InstructionView>) -> Set<
    Seq<u8>,
> {
    signing_addresses(instructions).to_set().insert(payer)
}

/// Whether a fee payer's instructions fit into one message: the message
/// names at most 256 distinct addresses, asks at most 255 of them to sign,
/// and every list in it has a length of two bytes.
pub open spec fn compilable(payer: Seq<u8>, instructions: Seq<InstructionView>) -> bool {
    &&& message_addresses(payer, instructions).len() <= MAX_ADDRESSES
    &&& message_signers(payer, instructions).len() <= MAX_SIGNERS
    &&& instructions.len() <= MAX_SHORT_LEN
    &&& forall|i: int|
        0 <= i < instructions.len() ==> (#[trigger] instructions[i]).accounts.len()
            <= MAX_SHORT_LEN && instructions[i].data.len() <= MAX_SHORT_LEN
}

/// Whether every account that must sign is the given one.
pub open spec fn signed_only_by(instructions: Seq<InstructionView>, signer: Seq<u8>) -> bool {
    forall|i: int, j: int|
        0 <= i < instructions.len() && 0 <= j < instructions[i].accounts.len() && (
        #[trigger] instructions[i].accounts[j]).is_signer ==> instructions[i].accounts[j].pubkey
            == signer
}

// ============== the SDK's own types ==============
#[verifier::external_type_specification]
#[verifier::external_body]
pub struct ExProgramError(solana_program::program_error::ProgramError);

#[verifier::external_type_specification]
#[verifier::external_body]
pub struct ExParsePubkeyError(solana_sdk::pubkey::ParsePubkeyError);

// ============== calls into the SDK ==============
/// `Keypair::pubkey` on the keypair that `Keypair::new_from_array` makes of
/// the secret bytes. The address depends on the secret bytes alone.
#[verifier::external_body]
fn derive_pubkey(secret: &[u8; 32]) -> (pk: Pubkey)
    ensures
        pk@ == ed25519_pubkey(secret@),
{
    Pubkey { bytes: SdkKeypair::new_from_array(*secret).pubkey().to_bytes() }
}

/// `Transaction::new` with the wallet as its only keypair, over the message
/// that `Message::new_with_blockhash` compiles with the wallet as fee payer.
/// Returned are the transaction's signatures and its serialized message. On
/// the inputs admitted here the wallet is the only signer, so there is one
/// signature, the wallet's over the message; signing uses no randomness.
/// The SDK fails where another signer is asked for, where the signers, or
/// the accounts that neither sign nor are written, are more than a byte can
/// count, and where a list is longer than two bytes can tell; `compilable`
/// and `signed_only_by` keep all of that away. `compilable` also keeps away
/// the messages of more than 256 addresses, whose indexes the SDK would cut.
#[verifier::external_body]
fn sign_transaction(secret: &[u8; 32], instructions: &Vec<Instruction>, blockhash: &Blockhash) -> (r: (
    Vec<[u8; 64]>,
    Vec<u8>,
))
    requires
        compilable(ed25519_pubkey(secret@), instruction_views(instructions@)),
        signed_only_by(instruction_views(instructions@), ed25519_pubkey(secret@)),
    ensures
        r.1@ == message_bytes(
            ed25519_pubkey(secret@),
            instruction_views(instructions@),
            blockhash@,
        ),
        r.0@.map_values(|s: [u8; 64]| s@) == seq![ed25519_signature(secret@, r.1@)],
{
    let wallet = SdkKeypair::new_from_array(*secret);
    let outside: Vec<SdkInstruction> = instructions.iter().map(|ix| SdkInstruction {
        program_id: ix.program_id.bytes.into(),
        accounts: ix.accounts.iter().map(|a| SdkAccountMeta { pubkey: a.pubkey.bytes.into(), is_signer: a.is_signer, is_writable: a.is_writable }).collect(),
        data: ix.data.clone(),
    }).collect();
    let hash = solana_sdk::hash::Hash::new_from_array(blockhash.bytes);
    let message = Message::new_with_blockhash(&outside, Some(&wallet.pubkey()), &hash);
    let tx = Transaction::new(&[&wallet], message, hash);
    (tx.signatures.iter().map(|s| (*s).into()).collect(), tx.message_data())
}

/// The system program's `transfer` builder: the instruction is the one that
/// `system_transfer_view` writes out.
#[verifier::external_body]
pub(crate) fn system_transfer(from: &Pubkey, to: &Pubkey, lamports: u64) -> (ix: Instruction)
    ensures
        ix@ == system_transfer_view(from@, to@, lamports),
{
    let ix = solana_program::example_mocks::solana_sdk::system_instruction::transfer(&from.bytes.into(), &to.bytes.into(), lamports);
    Instruction {
        program_id: Pubkey { bytes: ix.program_id.to_bytes() },
        accounts: ix.accounts.iter().map(|a| AccountMeta { pubkey: Pubkey { bytes: a.pubkey.to_bytes() }, is_signer: a.is_signer, is_writable: a.is_writable }).collect(),
        data: ix.data,
    }
}

/// `spl_token::id`: the token program's address.
#[verifier::external_body]
pub(crate) fn token_program_id() -> (id: Pubkey)
    ensures
        id@ == spec_token_program_id(),
{
    Pubkey { bytes: spl_token::id().to_bytes() }
}

/// The token program's `transfer` builder, with no additional signers. It
/// builds the instruction that `token_transfer_view` writes out when handed
/// the token program's own address, and refuses any other program.
#[verifier::external_body]
pub(crate) fn token_transfer(
    program_id: &Pubkey,
    source: &Pubkey,
    destination: &Pubkey,
    authority: &Pubkey,
    amount: u64,
) -> (r: Result<Instruction, solana_program::program_error::ProgramError>)
    ensures
        program_id@ == spec_token_program_id() ==> r is Ok,
        program_id@ != spec_token_program_id() ==> r is Err,
        r matches Ok(ix) ==> ix@ == token_transfer_view(source@, destination@, authority@, amount),
{
    let ix = spl_token_interface::instruction::transfer(&program_id.bytes.into(), &source.bytes.into(), &destination.bytes.into(), &authority.bytes.into(), &[], amount)?;
    Ok(Instruction {
        program_id: Pubkey { bytes: ix.program_id.to_bytes() },
        accounts: ix.accounts.iter().map(|a| AccountMeta { pubkey: Pubkey { bytes: a.pubkey.to_bytes() }, is_signer: a.is_signer, is_writable: a.is_writable }).collect(),
        data: ix.data,
    })
}

/// The debug rendering of the token program's error.
#[verifier::external_body]
pub(crate) fn program_error_text(e: &solana_program::program_error::ProgramError) -> (text: String) {
    format!("{:?}", e)
}

/// `Pubkey::to_string`: the text form of an address, a function of its bytes.
#[verifier::external_body]
fn pubkey_text(pk: &Pubkey) -> (text: String)
    ensures
        text@ == base58_text(pk@),
{
    solana_sdk::pubkey::Pubkey::new_from_array(pk.bytes).to_string()
}

/// `Pubkey::from_str`: reads an address from its text form. Whether a text
/// is read, and as which address, depends on the text alone.
#[verifier::external_body]
fn parse_pubkey(text: &str) -> (r: Result<Pubkey, solana_sdk::pubkey::ParsePubkeyError>)
    ensures
        r matches Ok(pk) ==> base58_address(text@) == Some(pk@),
        r is Err ==> base58_address(text@) is None,
{
    let parsed: solana_sdk::pubkey::Pubkey = text.parse()?;
    Ok(Pubkey { bytes: parsed.to_bytes() })
}

/// The display rendering of the address parser's error.
#[verifier::external_body]
fn parse_error_text(e: &solana_sdk::pubkey::ParsePubkeyError) -> (text: String) {
    e.to_string()
}

// ============== wallets ==============
impl Keypair {
    /// The secret bytes the wallet was made of.
    pub closed spec fn secret_bytes(&self) -> Seq<u8> {
        self.secret@
    }

    /// The wallet's address.
    pub open spec fn spec_pubkey(&self) -> Seq<u8> {
        ed25519_pubkey(self.secret_bytes())
    }

    pub fn new_from_array(secret: [u8; 32]) -> (wallet: Keypair)
        ensures
            wallet.secret_bytes() == secret@,
    {
        Keypair { secret }
    }

    pub fn pubkey(&self) -> (pk: Pubkey)
        ensures
            pk@ == self.spec_pubkey(),
    {
        derive_pubkey(&self.secret)
    }
}

/// Reads an address from its text form. Fails with a serialization error
/// exactly when the text is not the text form of an address.
pub fn pubkey_from_str(text: &str) -> (r: Result<Pubkey, JitoError<String>>)
    ensures
        match r {
            Ok(pk) => base58_address(text@) == Some(pk@),
            Err(e) => base58_address(text@) is None && e is SerializationError,
        },
{
    match parse_pubkey(text) {
        Ok(pk) => Ok(pk),
        Err(e) => Err(JitoError::SerializationError(parse_error_text(&e))),
    }
}

/// The text form of an address.
pub fn pubkey_to_string(pk: &Pubkey) -> (text: String)
    ensures
        text@ == base58_text(pk@),
{
    pubkey_text(pk)
}

// ============== signing ==============
/// Whether some instruction names the address, as its program or as one of
/// its accounts.
pub open spec fn names(instructions: Seq<InstructionView>, address: Seq<u8>) -> bool {
    exists|i: int|
        0 <= i < instructions.len() && names_in(#[trigger] instructions[i], address)
}

/// Whether the instruction names the address, as its program or as one of
/// its accounts.
pub open spec fn names_in(ix: InstructionView, address: Seq<u8>) -> bool {
    ix.program_id == address || exists|j: int|
        0 <= j < ix.accounts.len() && (#[trigger] ix.accounts[j]).pubkey == address
}

/// Whether some instruction marks an account with the address as signer.
pub open spec fn asks_to_sign(instructions: Seq<InstructionView>, address: Seq<u8>) -> bool {
    exists|i: int|
        0 <= i < instructions.len() && asks_to_sign_in(#[trigger] instructions[i], address)
}

/// Whether the instruction marks an account with the address as signer.
pub open spec fn asks_to_sign_in(ix: InstructionView, address: Seq<u8>) -> bool {
    exists|j: int|
        0 <= j < ix.accounts.len() && (#[trigger] ix.accounts[j]).pubkey == address
            && ix.accounts[j].is_signer
}

proof fn lemma_signer_addresses(accounts: Seq<AccountMetaView>, address: Seq<u8>)
    ensures
        signer_addresses(accounts).contains(address) <==> exists|j: int|
            0 <= j < accounts.len() && (#[trigger] accounts[j]).pubkey == address
                && accounts[j].is_signer,
{
    let signs = |a: AccountMetaView| a.is_signer;
    let kept = accounts.filter(signs);
    if signer_addresses(accounts).contains(address) {
        let k = choose|k: int|
            0 <= k < signer_addresses(accounts).len() && signer_addresses(accounts)[k] == address;
        assert(kept[k].pubkey == address);
        accounts.lemma_filter_pred(signs, k);
        assert(kept.contains(kept[k]));
        accounts.lemma_filter_contains_rev(signs, kept[k]);
        let j = choose|j: int| 0 <= j < accounts.len() && accounts[j] == kept[k];
        assert(accounts[j].pubkey == address && accounts[j].is_signer);
    }
    if exists|j: int|
        0 <= j < accounts.len() && (#[trigger] accounts[j]).pubkey == address
            && accounts[j].is_signer {
        let j = choose|j: int|
            0 <= j < accounts.len() && (#[trigger] accounts[j]).pubkey == address
                && accounts[j].is_signer;
        accounts.lemma_filter_contains(signs, j);
        let k = choose|k: int| 0 <= k < kept.len() && kept[k] == accounts[j];
        assert(signer_addresses(accounts)[k] == address);
    }
}

/// The mentions of a list of instructions hold exactly the addresses that
/// some instruction names, and the mentions of signers exactly those that
/// some instruction marks as signer.
pub proof fn lemma_mentions(instructions: Seq<InstructionView>, address: Seq<u8>)
    ensures
        named_addresses(instructions).contains(address) <==> names(instructions, address),
        signing_addresses(instructions).contains(address) <==> asks_to_sign(
            instructions,
            address,
        ),
    decreases instructions.len(),
{
    if instructions.len() > 0 {
        let front = instructions.drop_last();
        let last = instructions.last();
        lemma_mentions(front, address);
        lemma_signer_addresses(last.accounts, address);
        let programs = named_addresses(front).push(last.program_id);
        let accounts = account_addresses(last.accounts);
        assert forall|i: int| 0 <= i < front.len() implies front[i] == instructions[i] by {}
        // the mentions
        if named_addresses(instructions).contains(address) {
            let k = choose|k: int|
                0 <= k < named_addresses(instructions).len() && named_addresses(instructions)[k]
                    == address;
            if k < named_addresses(front).len() {
                assert(named_addresses(front)[k] == address);
                assert(named_addresses(front).contains(address));
                let i = choose|i: int| 0 <= i < front.len() && names_in(#[trigger] front[i], address);
                assert(names_in(instructions[i], address));
            } else if k == named_addresses(front).len() {
                assert(names_in(instructions[instructions.len() - 1], address));
            } else {
                let j = k - programs.len();
                assert(last.accounts[j].pubkey == address);
                assert(names_in(instructions[instructions.len() - 1], address));
            }
        }
        if names(instructions, address) {
            let i = choose|i: int|
                0 <= i < instructions.len() && names_in(#[trigger] instructions[i], address);
            if i < front.len() {
                assert(names_in(front[i], address));
                assert(names(front, address));
                let k = choose|k: int|
                    0 <= k < named_addresses(front).len() && named_addresses(front)[k] == address;
                assert(named_addresses(instructions)[k] == address);
            } else if last.program_id == address {
                assert(named_addresses(instructions)[named_addresses(front).len() as int]
                    == address);
            } else {
                let j = choose|j: int|
                    0 <= j < last.accounts.len() && (#[trigger] last.accounts[j]).pubkey == address;
                assert(named_addresses(instructions)[programs.len() + j] == address);
            }
        }
        // the mentions of signers
        if signing_addresses(instructions).contains(address) {
            let k = choose|k: int|
                0 <= k < signing_addresses(instructions).len() && signing_addresses(
                    instructions,
                )[k] == address;
            if k < signing_addresses(front).len() {
                assert(signing_addresses(front)[k] == address);
                assert(signing_addresses(front).contains(address));
                let i = choose|i: int|
                    0 <= i < front.len() && asks_to_sign_in(#[trigger] front[i], address);
                assert(asks_to_sign_in(instructions[i], address));
            } else {
                let j = k - signing_addresses(front).len();
                assert(signer_addresses(last.accounts)[j] == address);
                assert(signer_addresses(last.accounts).contains(address));
                assert(asks_to_sign_in(instructions[instructions.len() - 1], address));
            }
        }
        if asks_to_sign(instructions, address) {
            let i = choose|i: int|
                0 <= i < instructions.len() && asks_to_sign_in(#[trigger] instructions[i], address);
            if i < front.len() {
                assert(asks_to_sign_in(front[i], address));
                assert(asks_to_sign(front, address));
                let k = choose|k: int|
                    0 <= k < signing_addresses(front).len() && signing_addresses(front)[k]
                        == address;
                assert(signing_addresses(instructions)[k] == address);
            } else {
                assert(signer_addresses(last.accounts).contains(address));
                let k = choose|k: int|
                    0 <= k < signer_addresses(last.accounts).len() && signer_addresses(
                        last.accounts,
                    )[k] == address;
                assert(signing_addresses(instructions)[signing_addresses(front).len() + k]
                    == address);
            }
        }
    }
}

/// The addresses of a message are the fee payer and what the instructions
/// name; its signers are the fee payer and what the instructions mark as
/// signer.
pub proof fn lemma_message_addresses_are(
    payer: Seq<u8>,
    instructions: Seq<InstructionView>,
    address: Seq<u8>,
)
    ensures
        message_addresses(payer, instructions).contains(address) <==> (address == payer || names(
            instructions,
            address,
        )),
        message_signers(payer, instructions).contains(address) <==> (address == payer
            || asks_to_sign(instructions, address)),
{
    lemma_mentions(instructions, address);
}

/// The addresses of a message are finitely many, and at most one more
/// than the mentions; likewise the signers.
pub proof fn lemma_message_addresses(payer: Seq<u8>, instructions: Seq<InstructionView>)
    ensures
        message_addresses(payer, instructions).finite(),
        message_signers(payer, instructions).finite(),
        message_addresses(payer, instructions).len() <= named_addresses(instructions).len() + 1,
        message_signers(payer, instructions).len() <= signing_addresses(instructions).len() + 1,
{
    broadcast use vstd::set::group_set_axioms;

    let named = named_addresses(instructions);
    let signing = signing_addresses(instructions);
    seq_to_set_is_finite(named);
    seq_to_set_is_finite(signing);
    named.lemma_cardinality_of_set();
    signing.lemma_cardinality_of_set();
}

/// A single instruction with few accounts and short data fits into one
/// message, whoever pays for it.
pub(crate) proof fn lemma_single_compilable(payer: Seq<u8>, ix: InstructionView)
    requires
        ix.accounts.len() < MAX_SIGNERS - 1,
        ix.data.len() <= MAX_SHORT_LEN,
    ensures
        compilable(payer, seq![ix]),
{
    let instructions = seq![ix];
    assert(instructions.drop_last() =~= Seq::<InstructionView>::empty());
    assert(named_addresses(instructions.drop_last()) =~= Seq::<Seq<u8>>::empty());
    assert(signing_addresses(instructions.drop_last()) =~= Seq::<Seq<u8>>::empty());
    assert(named_addresses(instructions).len() == 1 + ix.accounts.len());
    ix.accounts.lemma_filter_len(|a: AccountMetaView| a.is_signer);
    assert(signing_addresses(instructions).len() <= ix.accounts.len());
    lemma_message_addresses(payer, instructions);
}

fn holds(seen: &Vec<Pubkey>, key: &Pubkey) -> (r: bool)
    ensures
        r == key_views(seen@).contains(key@),
{
    let mut k: usize = 0;
    while k < seen.len()
        invariant
            k <= seen@.len(),
            forall|m: int| 0 <= m < k ==> key_views(seen@)[m] != key@,
        decreases seen@.len() - k,
    {
        if seen[k].same_as(key) {
            assert(key_views(seen@)[k as int] == key@);
            return true;
        }
        k += 1;
    }
    false
}

/// Decides whether a list of addresses, together with one more, holds at
/// most `limit` distinct ones. It never keeps more than `limit` of them.
fn distinct_within(keys: &Vec<Pubkey>, extra: &Pubkey, limit: usize) -> (r: bool)
    requires
        limit >= 1,
    ensures
        r == (key_views(keys@).to_set().insert(extra@).len() <= limit),
{
    broadcast use vstd::set::group_set_axioms;

    let ghost all = key_views(keys@);
    let ghost full = all.to_set().insert(extra@);
    let mut seen: Vec<Pubkey> = Vec::new();
    seen.push(*extra);
    proof {
        seq_to_set_is_finite(all);
        assert(all.take(0) =~= Seq::<Seq<u8>>::empty());
        assert(key_views(seen@) =~= all.take(0).push(extra@));
        all.take(0).lemma_push_to_set_commute(extra@);
    }
    let mut i: usize = 0;
    while i < keys.len()
        invariant
            i <= keys@.len(),
            all == key_views(keys@),
            full == all.to_set().insert(extra@),
            full.finite(),
            key_views(seen@).no_duplicates(),
            key_views(seen@).to_set() =~= all.take(i as int).to_set().insert(extra@),
            1 <= seen@.len() <= limit,
        decreases keys@.len() - i,
    {
        let key = &keys[i];
        let ghost before = key_views(seen@);
        proof {
            assert(all[i as int] == key@);
            assert(all.take(i + 1) =~= all.take(i as int).push(key@));
            all.take(i as int).lemma_push_to_set_commute(key@);
        }
        if !holds(&seen, key) {
            proof {
                let grown = before.push(key@);
                assert(grown.no_duplicates());
                before.lemma_push_to_set_commute(key@);
                assert(grown.to_set() =~= all.take(i + 1).to_set().insert(extra@));
            }
            if seen.len() >= limit {
                proof {
                    let grown = before.push(key@);
                    grown.unique_seq_to_set();
                    assert(grown.to_set().subset_of(full)) by {
                        assert forall|a: Seq<u8>| grown.to_set().contains(a) implies full.contains(
                            a,
                        ) by {
                            if a != extra@ {
                                let prefix = all.take(i + 1);
                                assert(prefix.contains(a));
                                let m = choose|m: int| 0 <= m < prefix.len() && #[trigger] prefix[m] == a;
                                assert(all[m] == a);
                            }
                        }
                    }
                    lemma_len_subset(grown.to_set(), full);
                }
                return false;
            }
            seen.push(*key);
            proof {
                assert(key_views(seen@) =~= before.push(key@));
            }
        } else {
            proof {
                assert(before.to_set().insert(key@) =~= before.to_set());
            }
        }
        i += 1;
    }
    proof {
        assert(all.take(i as int) =~= all);
        key_views(seen@).unique_seq_to_set();
    }
    true
}

/// Lists every mention of an address in the instructions, and every mention
/// of an account that must sign, both in order.
fn collect_addresses(instructions: &Vec<Instruction>) -> (r: (Vec<Pubkey>, Vec<Pubkey>))
    ensures
        key_views(r.0@) == named_addresses(instruction_views(instructions@)),
        key_views(r.1@) == signing_addresses(instruction_views(instructions@)),
{
    let ghost views = instruction_views(instructions@);
    let ghost signs = |a: AccountMetaView| a.is_signer;
    let mut named: Vec<Pubkey> = Vec::new();
    let mut signing: Vec<Pubkey> = Vec::new();
    let mut i: usize = 0;
    proof {
        assert(views.take(0) =~= Seq::<InstructionView>::empty());
        assert(key_views(named@) =~= named_addresses(views.take(0)));
        assert(key_views(signing@) =~= signing_addresses(views.take(0)));
    }
    while i < instructions.len()
        invariant
            i <= instructions@.len(),
            views == instruction_views(instructions@),
            forall|a: AccountMetaView| #[trigger] signs(a) == a.is_signer,
            key_views(named@) == named_addresses(views.take(i as int)),
            key_views(signing@) == signing_addresses(views.take(i as int)),
        decreases instructions@.len() - i,
    {
        let ix = &instructions[i];
        let ghost accounts = views[i as int].accounts;
        let ghost named_before = named_addresses(views.take(i as int)).push(ix.program_id@);
        let ghost signing_before = signing_addresses(views.take(i as int));
        named.push(ix.program_id);
        let mut j: usize = 0;
        proof {
            assert(views[i as int] == instructions@[i as int]@);
            assert(accounts.take(0) =~= Seq::<AccountMetaView>::empty());
            assert(accounts.take(0).filter(signs) =~= Seq::<AccountMetaView>::empty()) by {
                reveal(Seq::filter);
            }
            assert(key_views(named@) =~= named_before + account_addresses(accounts.take(0)));
            assert(key_views(signing@) =~= signing_before + signer_addresses(accounts.take(0)));
        }
        while j < ix.accounts.len()
            invariant
                j <= ix.accounts@.len(),
                accounts == ix.accounts@.map_values(|a: AccountMeta| a@),
                forall|a: AccountMetaView| #[trigger] signs(a) == a.is_signer,
                key_views(named@) == named_before + account_addresses(accounts.take(j as int)),
                key_views(signing@) == signing_before + signer_addresses(
                    accounts.take(j as int),
                ),
            decreases ix.accounts@.len() - j,
        {
            let account = &ix.accounts[j];
            let ghost named_so_far = key_views(named@);
            let ghost signing_so_far = key_views(signing@);
            proof {
                let next = accounts.take(j + 1);
                assert(accounts[j as int] == account@);
                assert(next.drop_last() =~= accounts.take(j as int));
                assert(next.last() == account@);
                reveal(Seq::filter);
                assert(next.filter(signs) == if signs(account@) {
                    accounts.take(j as int).filter(signs).push(account@)
                } else {
                    accounts.take(j as int).filter(signs)
                });
                assert(account_addresses(next) =~= account_addresses(
                    accounts.take(j as int),
                ).push(account.pubkey@));
            }
            named.push(account.pubkey);
            if account.is_signer {
                signing.push(account.pubkey);
            }
            proof {
                assert(key_views(named@) =~= named_so_far.push(account.pubkey@));
                if account.is_signer {
                    assert(key_views(signing@) =~= signing_so_far.push(account.pubkey@));
                    assert(signer_addresses(accounts.take(j + 1)) =~= signer_addresses(
                        accounts.take(j as int),
                    ).push(account.pubkey@));
                }
                assert(key_views(named@) =~= named_before + account_addresses(
                    accounts.take(j + 1),
                ));
                assert(key_views(signing@) =~= signing_before + signer_addresses(
                    accounts.take(j + 1),
                ));
            }
            j += 1;
        }
        proof {
            assert(accounts.take(j as int) =~= accounts);
            assert(views.take(i + 1).drop_last() =~= views.take(i as int));
            assert(views.take(i + 1).last() == views[i as int]);
        }
        i += 1;
    }
    proof {
        assert(views.take(i as int) =~= views);
    }
    (named, signing)
}

/// Decides whether a fee payer's instructions fit into one message.
pub fn fits_one_message(instructions: &Vec<Instruction>, payer: &Pubkey) -> (r: bool)
    ensures
        r == compilable(payer@, instruction_views(instructions@)),
{
    let ghost views = instruction_views(instructions@);
    if instructions.len() > MAX_SHORT_LEN {
        return false;
    }
    let mut i: usize = 0;
    while i < instructions.len()
        invariant
            i <= instructions@.len(),
            views == instruction_views(instructions@),
            forall|k: int|
                0 <= k < i ==> (#[trigger] views[k]).accounts.len() <= MAX_SHORT_LEN
                    && views[k].data.len() <= MAX_SHORT_LEN,
        decreases instructions@.len() - i,
    {
        let ix = &instructions[i];
        proof {
            assert(views[i as int] == instructions@[i as int]@);
            assert(views[i as int].accounts.len() == ix.accounts@.len());
        }
        if ix.accounts.len() > MAX_SHORT_LEN || ix.data.len() > MAX_SHORT_LEN {
            return false;
        }
        i += 1;
    }
    let (named, signing) = collect_addresses(instructions);
    distinct_within(&named, payer, MAX_ADDRESSES) && distinct_within(&signing, payer, MAX_SIGNERS)
}

/// Decides whether every account that must sign is the given one.
pub fn only_signer(instructions: &Vec<Instruction>, signer: &Pubkey) -> (r: bool)
    ensures
        r == signed_only_by(instruction_views(instructions@), signer@),
{
    let ghost views = instruction_views(instructions@);
    let mut i: usize = 0;
    while i < instructions.len()
        invariant
            i <= instructions.len(),
            views == instruction_views(instructions@),
            forall|a: int, b: int|
                0 <= a < i && 0 <= b < views[a].accounts.len() && (
                #[trigger] views[a].accounts[b]).is_signer ==> views[a].accounts[b].pubkey
                    == signer@,
        decreases instructions.len() - i,
    {
        let ix = &instructions[i];
        let mut j: usize = 0;
        assert(views[i as int] == instructions@[i as int]@);
        while j < ix.accounts.len()
            invariant
                j <= ix.accounts.len(),
                i < instructions.len(),
                views == instruction_views(instructions@),
                ix == &instructions@[i as int],
                views[i as int].accounts == ix.accounts@.map_values(|a: AccountMeta| a@),
                forall|b: int|
                    0 <= b < j && (#[trigger] views[i as int].accounts[b]).is_signer
                        ==> views[i as int].accounts[b].pubkey == signer@,
            decreases ix.accounts.len() - j,
        {
            let account = &ix.accounts[j];
            assert(views[i as int].accounts[j as int] == account@);
            if account.is_signer && !account.pubkey.same_as(signer) {
                return false;
            }
            j += 1;
        }
        i += 1;
    }
    true
}

/// Why a list of instructions could not be turned into a signed transaction.
#[derive(Debug, Clone, Copy, PartialEq, Eq, Structural)]
pub enum SigningError {
    /// The instructions do not fit into one message.
    TooLarge,
    /// An account other than the wallet is required to sign.
    ForeignSigner,
}

/// The transaction that a wallet makes of a list of instructions: the message
/// compiled with the wallet as fee payer, and the wallet's signature of it.
pub open spec fn signed_by(
    secret: Seq<u8>,
    instructions: Seq<InstructionView>,
    blockhash: Seq<u8>,
) -> SignedTransactionView {
    let message = message_bytes(ed25519_pubkey(secret), instructions, blockhash);
    SignedTransactionView {
        signatures: seq![ed25519_signature(secret, message)],
        message,
        recent_blockhash: blockhash,
    }
}

impl SignedTransaction {
    /// Has the SDK compile the instructions into a message that the wallet
    /// pays for, and sign it with the wallet. Succeeds exactly when the
    /// instructions are `compilable` for the wallet and ask for no signature
    /// but the wallet's.
    pub fn new(wallet: &Keypair, instructions: &Vec<Instruction>, recent_blockhash: &Blockhash) -> (r:
        Result<SignedTransaction, SigningError>)
        ensures
            match r {
                Ok(tx) => {
                    &&& compilable(wallet.spec_pubkey(), instruction_views(instructions@))
                    &&& signed_only_by(instruction_views(instructions@), wallet.spec_pubkey())
                    &&& tx@ == signed_by(
                        wallet.secret_bytes(),
                        instruction_views(instructions@),
                        recent_blockhash@,
                    )
                },
                Err(SigningError::TooLarge) => !compilable(
                    wallet.spec_pubkey(),
                    instruction_views(instructions@),
                ),
                Err(SigningError::ForeignSigner) => {
                    &&& compilable(wallet.spec_pubkey(), instruction_views(instructions@))
                    &&& !signed_only_by(instruction_views(instructions@), wallet.spec_pubkey())
                },
            },
    {
        let payer = wallet.pubkey();
        if !fits_one_message(instructions, &payer) {
            return Err(SigningError::TooLarge);
        }
        if !only_signer(instructions, &payer) {
            return Err(SigningError::ForeignSigner);
        }
        let (signatures, message) = sign_transaction(&wallet.secret, instructions, recent_blockhash);
        Ok(SignedTransaction { signatures, message, recent_blockhash: *recent_blockhash })
    }
}

} // verus!
