//! Output scripts by their shape: which of the standard kinds a script is, and
//! which kind of input spends it.

use vstd::prelude::*;

verus! {

/// Pay to script hash: `OP_HASH160`, a push of 20 bytes, `OP_EQUAL`.
pub open spec fn p2sh(s: Seq<u8>) -> bool {
    s.len() == 23 && s[0] == 0xa9 && s[1] == 0x14 && s[22] == 0x87
}

/// Pay to public key hash: `OP_DUP OP_HASH160`, a push of 20 bytes,
/// `OP_EQUALVERIFY OP_CHECKSIG`.
pub open spec fn p2pkh(s: Seq<u8>) -> bool {
    s.len() == 25 && s[0] == 0x76 && s[1] == 0xa9 && s[2] == 0x14 && s[23] == 0x88 && s[24] == 0xac
}

/// Pay to public key: a push of a 65 or 33 byte key, then `OP_CHECKSIG`.
pub open spec fn p2pk(s: Seq<u8>) -> bool {
    (s.len() == 67 && s[0] == 0x41 && s[66] == 0xac) || (s.len() == 35 && s[0] == 0x21 && s[34]
        == 0xac)
}

/// A witness program: a version opcode (`OP_0`, or `OP_1` to `OP_16`), then
/// one push of 2 to 40 bytes that makes up the rest of the script.
pub open spec fn witness_program(s: Seq<u8>) -> bool {
    4 <= s.len() <= 42 && (s[0] == 0 || 0x51 <= s[0] <= 0x60) && 2 <= s[1] <= 40 && s.len() - 2
        == s[1]
}

/// Version 0 pay to witness public key hash.
pub open spec fn p2wpkh(s: Seq<u8>) -> bool {
    s.len() == 22 && s[0] == 0 && s[1] == 0x14
}

/// Version 0 pay to witness script hash.
pub open spec fn p2wsh(s: Seq<u8>) -> bool {
    s.len() == 34 && s[0] == 0 && s[1] == 0x20
}

/// Version 1 pay to taproot.
pub open spec fn p2tr(s: Seq<u8>) -> bool {
    s.len() == 34 && s[0] == 0x51 && s[1] == 0x20
}

/// `bitcoin::Script::is_p2sh`: the script has the 23 bytes of a pay to script
/// hash output.
#[verifier::external_body]
fn is_p2sh(script: &[u8]) -> (yes: bool)
    ensures
        yes == p2sh(script@),
{
    bitcoin::Script::from_bytes(script).is_p2sh()
}

/// `bitcoin::Script::is_p2pkh`: the script has the 25 bytes of a pay to
/// public key hash output.
#[verifier::external_body]
fn is_p2pkh(script: &[u8]) -> (yes: bool)
    ensures
        yes == p2pkh(script@),
{
    bitcoin::Script::from_bytes(script).is_p2pkh()
}

/// `bitcoin::Script::is_p2pk`: the script pushes one key of 65 or 33 bytes
/// and ends in `OP_CHECKSIG`.
#[verifier::external_body]
fn is_p2pk(script: &[u8]) -> (yes: bool)
    ensures
        yes == p2pk(script@),
{
    bitcoin::Script::from_bytes(script).is_p2pk()
}

/// `bitcoin::Script::is_witness_program`: the script is a version opcode and
/// one push of 2 to 40 bytes.
#[verifier::external_body]
fn is_witness_program(script: &[u8]) -> (yes: bool)
    ensures
        yes == witness_program(script@),
{
    bitcoin::Script::from_bytes(script).is_witness_program()
}

/// `bitcoin::Script::is_v0_p2wpkh`: 22 bytes, version 0, a push of 20.
#[verifier::external_body]
fn is_v0_p2wpkh(script: &[u8]) -> (yes: bool)
    ensures
        yes == p2wpkh(script@),
{
    bitcoin::Script::from_bytes(script).is_v0_p2wpkh()
}

/// `bitcoin::Script::is_v0_p2wsh`: 34 bytes, version 0, a push of 32.
#[verifier::external_body]
fn is_v0_p2wsh(script: &[u8]) -> (yes: bool)
    ensures
        yes == p2wsh(script@),
{
    bitcoin::Script::from_bytes(script).is_v0_p2wsh()
}

/// `bitcoin::Script::is_v1_p2tr`: 34 bytes, version 1, a push of 32.
#[verifier::external_body]
fn is_v1_p2tr(script: &[u8]) -> (yes: bool)
    ensures
        yes == p2tr(script@),
{
    bitcoin::Script::from_bytes(script).is_v1_p2tr()
}

/// The kind of an input, by the script it spends.
#[derive(Clone, Copy, Debug, PartialEq, Eq, Structural)]
pub enum InputType {
    P2Pk,
    P2Pkh,
    P2Sh,
    SegWitV0Pubkey { nested: bool },
    SegWitV0Script { nested: bool },
    Taproot,
}

/// Why an input has no kind.
#[derive(Clone, Copy, Debug, PartialEq, Eq, Structural)]
pub enum InputTypeError {
    /// The script is of no kind that is known here.
    UnknownInputType,
    /// The input spends a script hash and carries no redeem script yet.
    NotFinalized,
}

/// The kind of a witness program, bare or nested in a script hash.
pub open spec fn segwit_type(s: Seq<u8>, nested: bool) -> Result<InputType, InputTypeError> {
    if p2wpkh(s) {
        Ok(InputType::SegWitV0Pubkey { nested })
    } else if p2wsh(s) {
        Ok(InputType::SegWitV0Script { nested })
    } else if p2tr(s) {
        Ok(InputType::Taproot)
    } else {
        Err(InputTypeError::UnknownInputType)
    }
}

/// The kind of the input that spends `script_pubkey`. An input that spends a
/// script hash is judged by its redeem script: a witness program there makes
/// it a nested segwit input, any other script a plain script hash input.
pub open spec fn input_type(script_pubkey: Seq<u8>, redeem_script: Option<Seq<u8>>) -> Result<
    InputType,
    InputTypeError,
> {
    if p2pk(script_pubkey) {
        Ok(InputType::P2Pk)
    } else if p2pkh(script_pubkey) {
        Ok(InputType::P2Pkh)
    } else if p2sh(script_pubkey) {
        match redeem_script {
            Some(redeem) => if witness_program(redeem) {
                segwit_type(redeem, true)
            } else {
                Ok(InputType::P2Sh)
            },
            None => Err(InputTypeError::NotFinalized),
        }
    } else if witness_program(script_pubkey) {
        segwit_type(script_pubkey, false)
    } else {
        Err(InputTypeError::UnknownInputType)
    }
}

fn classify_segwit(script: &[u8], nested: bool) -> (kind: Result<InputType, InputTypeError>)
    ensures
        kind == segwit_type(script@, nested),
{
    if is_v0_p2wpkh(script) {
        Ok(InputType::SegWitV0Pubkey { nested })
    } else if is_v0_p2wsh(script) {
        Ok(InputType::SegWitV0Script { nested })
    } else if is_v1_p2tr(script) {
        Ok(InputType::Taproot)
    } else {
        Err(InputTypeError::UnknownInputType)
    }
}

/// Finds the kind of the input that spends `script_pubkey`.
pub fn classify(script_pubkey: &Vec<u8>, redeem_script: &Option<Vec<u8>>) -> (kind: Result<
    InputType,
    InputTypeError,
>)
    ensures
        kind == input_type(
            script_pubkey@,
            match redeem_script {
                Some(r) => Some(r@),
                None => None,
            },
        ),
{
    let script = script_pubkey.as_slice();
    if is_p2pk(script) {
        Ok(InputType::P2Pk)
    } else if is_p2pkh(script) {
        Ok(InputType::P2Pkh)
    } else if is_p2sh(script) {
        match redeem_script {
            Some(redeem) => {
                if is_witness_program(redeem.as_slice()) {
                    classify_segwit(redeem.as_slice(), true)
                } else {
                    Ok(InputType::P2Sh)
                }
            },
            None => Err(InputTypeError::NotFinalized),
        }
    } else if is_witness_program(script) {
        classify_segwit(script, false)
    } else {
        Err(InputTypeError::UnknownInputType)
    }
}

} // verus!
