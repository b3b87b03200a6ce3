//! The record of a verified secp256r1 signature that accompanies a withdrawal.
//!
//! The signature itself is checked by the ledger's own verification program
//! before any request of the batch runs. This module only reads what that
//! program was given: which key signed, and which message.

use vstd::prelude::*;

use pinocchio::program_error::ProgramError;
use pinocchio_secp256r1_instruction::Secp256r1Instruction;

use crate::account::Pubkey;
use crate::bytes::{bytes_eq, le_signed, read_le_i64, take};
use crate::error::VaultError;

verus! {

/// A compressed secp256r1 public key.
pub type Secp256r1Pubkey = [u8; 33];

/// The length of the signed message: the payer's address and the expiry time.
pub const MESSAGE_LEN: usize = 40;

/// A request of the batch, as the ledger's introspection hands it over: the
/// program it is addressed to and its body.
#[derive(Clone, Debug, PartialEq, Eq)]
pub struct IntrospectedInstruction {
    /// The program that the request is addressed to.
    pub program_id: Pubkey,
    /// The body of the request.
    pub data: Vec<u8>,
}

/// What a withdrawal takes from the signature record: the key that signed,
/// and the two fields of the message it signed.
#[derive(Clone, Copy, Debug, PartialEq, Eq)]
pub struct SignatureRecord {
    /// The key whose signature the ledger verified.
    pub signer: Secp256r1Pubkey,
    /// The party that the message allows to withdraw.
    pub payer: Pubkey,
    /// The time, in seconds since the Unix epoch, after which the message no
    /// longer holds.
    pub expiry: i64,
}

/// The address of the secp256r1 verification program.
pub open spec fn secp256r1_program() -> Seq<u8> {
    seq![
        0x06u8, 0x92, 0x0d, 0xec, 0x2f, 0xea, 0x71, 0xb5,
        0xb7, 0x23, 0x81, 0x4d, 0x74, 0x2d, 0xa9, 0x03,
        0x1c, 0x83, 0xe7, 0x5f, 0xdb, 0x79, 0x5d, 0x56,
        0x8e, 0x75, 0x47, 0x80, 0x20, 0x00, 0x00, 0x00,
    ]
}

/// The two-byte unsigned number at `at`, least significant byte first.
pub open spec fn le_u16_at(data: Seq<u8>, at: int) -> int {
    data[at] as int + 256 * (data[at + 1] as int)
}

/// Whether `data` is long enough for the signature count in its first byte:
/// two bytes of header, then fourteen bytes of offsets for each signature.
pub open spec fn record_parses(data: Seq<u8>) -> bool {
    data.len() >= 2 && data.len() >= 2 + 14 * (data[0] as int)
}

/// The public key of the first signature, where the record holds one in its
/// own body: 33 bytes from the offset that bytes 6 and 7 give, provided that
/// bytes 8 and 9 name the record itself (`0xffff`) as the place of the key.
pub open spec fn record_signer(data: Seq<u8>) -> Option<Seq<u8>> {
    let start = le_u16_at(data, 6);
    if record_parses(data) && data[0] >= 1 && le_u16_at(data, 8) == 0xffff && start + 33
        <= data.len() {
        Some(data.subrange(start, start + 33))
    } else {
        None
    }
}

/// The message of the first signature, where the record holds one in its own
/// body: as many bytes as bytes 12 and 13 say, from the offset that bytes 10
/// and 11 give, provided that bytes 14 and 15 name the record itself.
pub open spec fn record_message(data: Seq<u8>) -> Option<Seq<u8>> {
    let start = le_u16_at(data, 10);
    let size = le_u16_at(data, 12);
    if record_parses(data) && data[0] >= 1 && le_u16_at(data, 14) == 0xffff && start + size
        <= data.len() {
        Some(data.subrange(start, start + size))
    } else {
        None
    }
}

/// The address of the secp256r1 verification program, as
/// `pinocchio_secp256r1_instruction::SECP256R1_PROGRAM_ID` spells it out.
#[verifier::external_body]
pub(crate) fn secp256r1_program_id() -> (id: Pubkey)
    ensures
        id@ == secp256r1_program(),
{
    pinocchio_secp256r1_instruction::SECP256R1_PROGRAM_ID
}

/// Parses `data` with `Secp256r1Instruction::try_from` and asks the result
/// for `num_signatures`. The parse fails on fewer than two bytes and on fewer
/// bytes than the count in the first byte calls for; otherwise the count is
/// that first byte.
#[verifier::external_body]
pub(crate) fn signature_count(data: &[u8]) -> (count: Result<u8, ProgramError>)
    ensures
        count is Ok <==> record_parses(data@),
        count matches Ok(n) ==> n == data@[0],
{
    let record = Secp256r1Instruction::try_from(data)?;
    Ok(record.num_signatures())
}

/// Parses `data` with `Secp256r1Instruction::try_from` and asks the result
/// for `get_signer(0)`. It succeeds exactly where [`record_signer`] names a
/// key, and then returns that key. The offsets are read in the byte order of
/// the machine, which on every target of the ledger is little-endian.
#[verifier::external_body]
pub(crate) fn first_signer(data: &[u8]) -> (signer: Result<Secp256r1Pubkey, ProgramError>)
    ensures
        signer is Ok <==> record_signer(data@) is Some,
        signer matches Ok(key) ==> record_signer(data@) == Some(key@),
{
    let record = Secp256r1Instruction::try_from(data)?;
    record.get_signer(0).copied()
}

/// Parses `data` with `Secp256r1Instruction::try_from` and asks the result
/// for `get_message_data(0)`. It succeeds exactly where [`record_message`]
/// names a message, and then returns a copy of it. The offsets are read in
/// the byte order of the machine, which on every target of the ledger is
/// little-endian.
#[verifier::external_body]
pub(crate) fn first_message(data: &[u8]) -> (message: Result<Vec<u8>, ProgramError>)
    ensures
        message is Ok <==> record_message(data@) is Some,
        message matches Ok(bytes) ==> record_message(data@) == Some(bytes@),
{
    let record = Secp256r1Instruction::try_from(data)?;
    match record.get_message_data(0) {
        Ok(bytes) => Ok(bytes.to_vec()),
        Err(error) => Err(error),
    }
}

impl SignatureRecord {
    /// Why the sibling request is no usable signature record, if it is none.
    ///
    /// It must be there, be addressed to the verification program, and parse.
    /// It must then carry exactly one signature, whose key and message lie in
    /// the record itself, with a message of exactly forty bytes.
    pub open spec fn rejection(sibling: Option<&IntrospectedInstruction>) -> Option<VaultError> {
        match sibling {
            None => Some(VaultError::SignatureRecord),
            Some(instruction) => {
                let data = instruction.data@;
                if instruction.program_id@ != secp256r1_program() || !record_parses(data) {
                    Some(VaultError::SignatureRecord)
                } else if data[0] != 1 {
                    Some(VaultError::SignatureCount)
                } else if record_signer(data) is None || record_message(data) is None
                    || record_message(data).unwrap().len() != MESSAGE_LEN {
                    Some(VaultError::SignatureRecord)
                } else {
                    None
                }
            },
        }
    }

    /// The key that signed the record in `data`.
    pub open spec fn signer_of(data: Seq<u8>) -> Seq<u8> {
        record_signer(data).unwrap()
    }

    /// The party that the message of the record in `data` allows to
    /// withdraw: its first 32 bytes.
    pub open spec fn payer_of(data: Seq<u8>) -> Seq<u8> {
        record_message(data).unwrap().subrange(0, 32)
    }

    /// The expiry in the message of the record in `data`: its last 8 bytes,
    /// a signed number, least significant byte first.
    pub open spec fn expiry_of(data: Seq<u8>) -> int {
        le_signed(record_message(data).unwrap().subrange(32, 40))
    }

    /// Whether `self` holds the fields of the record in `data`.
    pub open spec fn is_read_from(&self, data: Seq<u8>) -> bool {
        &&& self.signer@ == Self::signer_of(data)
        &&& self.payer@ == Self::payer_of(data)
        &&& self.expiry == Self::expiry_of(data)
    }

    /// Reads the signature record out of the request that follows the
    /// withdrawal in its batch, or says why there is none to read.
    pub fn read(sibling: Option<&IntrospectedInstruction>) -> (record: Result<Self, VaultError>)
        ensures
            match record {
                Ok(fields) => Self::rejection(sibling) is None && fields.is_read_from(
                    sibling.unwrap().data@,
                ),
                Err(error) => Self::rejection(sibling) == Some(error),
            },
    {
        let instruction = match sibling {
            Some(instruction) => instruction,
            None => return Err(VaultError::SignatureRecord),
        };
        let verifier = secp256r1_program_id();
        if !bytes_eq(&instruction.program_id, &verifier) {
            return Err(VaultError::SignatureRecord);
        }
        let data = instruction.data.as_slice();
        let count = match signature_count(data) {
            Ok(count) => count,
            Err(_) => return Err(VaultError::SignatureRecord),
        };
        if count != 1 {
            return Err(VaultError::SignatureCount);
        }
        let signer = match first_signer(data) {
            Ok(signer) => signer,
            Err(_) => return Err(VaultError::SignatureRecord),
        };
        let message = match first_message(data) {
            Ok(message) => message,
            Err(_) => return Err(VaultError::SignatureRecord),
        };
        if message.len() != MESSAGE_LEN {
            return Err(VaultError::SignatureRecord);
        }
        let payer: Pubkey = take(message.as_slice(), 0);
        let expiry_bytes: [u8; 8] = take(message.as_slice(), 32);
        let expiry = read_le_i64(&expiry_bytes);
        Ok(SignatureRecord { signer, payer, expiry })
    }
}

} // verus!
