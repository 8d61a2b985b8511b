//! Signing with an Ethereum private key.
//!
//! A signature is made over the personal-message hash of a text, as wallets
//! make it, and written as 130 hex digits. The elliptic-curve work is done by
//! `ethers`; what this module states of it is what its documentation shows.

use vstd::prelude::*;
use crate::error::ApiError;

verus! {

/// The address of the wallet that a private key in hex stands for, as `0x` and
/// 40 hex digits; `None` where `ethers` refuses the key.
pub uninterp spec fn wallet_address(key: Seq<char>) -> Option<Seq<char>>;

/// The signature that the wallet of a key makes over a message, as `ethers`
/// prints it; `None` where signing fails.
pub uninterp spec fn message_signature(key: Seq<char>, message: Seq<char>) -> Option<Seq<char>>;

/// The address that `ethers` recovers from a signature over a message, as
/// `0x` and 40 hex digits; `None` where the text is no signature or nothing
/// can be recovered.
pub uninterp spec fn signature_signer(signature: Seq<char>, message: Seq<char>) -> Option<
    Seq<char>,
>;

/// What signing a message with a key comes to.
pub open spec fn signed(key: Seq<char>, message: Seq<char>) -> Result<Seq<char>, ApiError> {
    if wallet_address(key) is None {
        Err(ApiError::InvalidKey)
    } else {
        match message_signature(key, message) {
            Some(signature) => Ok(signature),
            None => Err(ApiError::SignError),
        }
    }
}

/// `LocalWallet::from_str`, then what `Signer::sign_message` does for a local
/// wallet (`Wallet::sign_hash` on `hash_message` of the text), then `Display`
/// of the signature. The key decides alone whether it is accepted; key and
/// message decide the signature, which is made without randomness; and the
/// signature recovers to the wallet's address, as the documentation of
/// `Wallet` shows.
#[verifier::external_body]
fn wallet_sign(key: &str, message: &str) -> (r: Result<String, ApiError>)
    ensures
        match r {
            Ok(signature) => wallet_address(key@) is Some && message_signature(key@, message@)
                == Some(signature@) && signature_signer(signature@, message@) == wallet_address(
                key@,
            ),
            Err(e) => if wallet_address(key@) is None {
                e == ApiError::InvalidKey
            } else {
                e == ApiError::SignError && message_signature(key@, message@) is None
            },
        },
{
    let wallet = match key.parse::<ethers::signers::LocalWallet>() {
        Ok(wallet) => wallet,
        Err(_) => return Err(ApiError::InvalidKey),
    };
    match wallet.sign_hash(ethers::utils::hash_message(message)) {
        Ok(signature) => Ok(signature.to_string()),
        Err(_) => Err(ApiError::SignError),
    }
}

/// `Signature::from_str`, then `Signature::recover` on the message, printed
/// in hex with its `0x` prefix.
#[verifier::external_body]
fn signature_recover(signature: &str, message: &str) -> (r: Option<String>)
    ensures
        match r {
            Some(address) => signature_signer(signature@, message@) == Some(address@),
            None => signature_signer(signature@, message@) is None,
        },
{
    match signature.parse::<ethers::types::Signature>() {
        Ok(parsed) => parsed.recover(message).ok().map(|address| format!("{:#x}", address)),
        Err(_) => None,
    }
}

/// Signs `message` with the private key `private_key`, given in hex.
///
/// The result is `Err(InvalidKey)` exactly where the key is refused and
/// `Err(SignError)` exactly where it is accepted and signing fails. A
/// signature that is handed out recovers to the address of the key.
pub fn sign_message(message: &str, private_key: &str) -> (r: Result<String, ApiError>)
    ensures
        match r {
            Ok(signature) => signed(private_key@, message@) == Ok::<Seq<char>, ApiError>(
                signature@,
            ) && signature_signer(signature@, message@) == wallet_address(private_key@),
            Err(e) => signed(private_key@, message@) == Err::<Seq<char>, ApiError>(e),
        },
{
    wallet_sign(private_key, message)
}

/// Whether `signature` is a signature over `message` by the owner of
/// `address`, which is given as `0x` and 40 lower-case hex digits.
pub fn verify_signature(signature: &str, message: &str, address: &str) -> (r: bool)
    ensures
        r == (signature_signer(signature@, message@) == Some(address@)),
{
    match signature_recover(signature, message) {
        Some(signer) => crate::text::str_eq(signer.as_str(), address),
        None => false,
    }
}

} // verus!
