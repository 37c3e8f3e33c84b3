//! A wallet address for an email address: the contract address whose
//! 32-byte id is the SHA-256 digest of the email's bytes.

use crate::errors::AppError;
use crate::principal::Principal;
use vstd::prelude::*;
use vstd::string::StringSliceAdditionalSpecFns;

verus! {

/// The longest email, in bytes, that an address is derived for.
pub const MAX_EMAIL_BYTES: usize = 256;

/// The SHA-256 digest of `data`.
pub uninterp spec fn sha256_digest(data: Seq<u8>) -> Seq<u8>;

/// The strkey text of the address that the XDR bytes `xdr` encode, if they
/// encode an address.
pub uninterp spec fn address_text_of_xdr(xdr: Seq<u8>) -> Option<Seq<char>>;

/// The eight bytes in front of a contract id in the XDR encoding of a
/// contract address: the value type `18`, an address, and the address
/// type `1`, a contract, each as a big-endian 32-bit number.
pub open spec fn frame_header() -> Seq<u8> {
    seq![0u8, 0u8, 0u8, 18u8, 0u8, 0u8, 0u8, 1u8]
}

/// The XDR encoding of the contract address with id `hash`.
pub open spec fn frame(hash: Seq<u8>) -> Seq<u8> {
    frame_header() + hash
}

/// Whether an address is derived for an email of these bytes: it is not
/// empty and not longer than `MAX_EMAIL_BYTES`.
pub open spec fn acceptable(email: Seq<u8>) -> bool {
    0 < email.len() <= MAX_EMAIL_BYTES
}

/// The text of the wallet address of an email of these bytes.
pub open spec fn wallet_text(email: Seq<u8>) -> Option<Seq<char>> {
    address_text_of_xdr(frame(sha256_digest(email)))
}

/// Calls `soroban_sdk::Env::crypto().sha256` on a fresh default
/// environment. Trusted, not proved: that the bytes returned are the
/// SHA-256 digest of `data`, the same for the same data.
#[verifier::external_body]
fn sha256(data: &[u8]) -> (hash: [u8; 32])
    requires
        data@.len() <= MAX_EMAIL_BYTES,
    ensures
        hash@ == sha256_digest(data@),
{
    let env = soroban_sdk::Env::default();
    let bytes = soroban_sdk::Bytes::from_slice(&env, data);
    env.crypto().sha256(&bytes).to_array()
}

/// Calls `soroban_sdk::xdr::FromXdr::from_xdr` for `soroban_sdk::Address`
/// on a fresh default environment, and `Address::to_string` on what it
/// returns. Trusted, not proved: that the text is the strkey of the address
/// that the bytes encode, the same for the same bytes. The outside function
/// does not return on bytes that are no XDR value at all; the bytes asked
/// for here are a well-formed contract address.
#[verifier::external_body]
fn address_from_xdr(xdr: &[u8; 40]) -> (text: Option<String>)
    requires
        xdr@.subrange(0, 8) == frame_header(),
    ensures
        text is Some == address_text_of_xdr(xdr@) is Some,
        text matches Some(t) ==> Some(t@) == address_text_of_xdr(xdr@),
{
    let env = soroban_sdk::Env::default();
    let bytes = soroban_sdk::Bytes::from_array(&env, xdr);
    match <soroban_sdk::Address as soroban_sdk::xdr::FromXdr>::from_xdr(&env, &bytes) {
        Ok(address) => Some(address.to_string().to_string()),
        Err(_) => None,
    }
}

/// The XDR encoding of the contract address with id `hash`.
pub fn wallet_frame(hash: &[u8; 32]) -> (xdr: [u8; 40])
    ensures
        xdr@ == frame(hash@),
{
    let mut xdr = [0u8; 40];
    xdr[3] = 18;
    xdr[7] = 1;
    let mut i: usize = 0;
    while i < 32
        invariant
            i <= 32,
            xdr@.subrange(0, 8) == frame_header(),
            forall|k: int| 0 <= k < i ==> xdr@[8 + k] == hash@[k],
        decreases 32 - i,
    {
        xdr[8 + i] = hash[i];
        proof {
            assert(xdr@.subrange(0, 8) =~= frame_header());
        }
        i += 1;
    }
    proof {
        assert(xdr@ =~= frame(hash@));
    }
    xdr
}

/// The wallet address that a lookup of the frame found, or the failure
/// that stands for none.
pub fn wallet_of(found: Option<String>) -> (res: Result<Principal, AppError>)
    ensures
        match found {
            Some(text) => res matches Ok(p) && p@ == text@,
            None => res == Err::<Principal, AppError>(AppError::InvalidAddress),
        },
{
    match found {
        Some(text) => Ok(Principal { key: text }),
        None => Err(AppError::InvalidAddress),
    }
}

/// The wallet address of `email`. An email that is empty or longer than
/// `MAX_EMAIL_BYTES` has none.
pub fn derive_wallet_address_from_email(email: &str) -> (res: Result<Principal, AppError>)
    ensures
        match res {
            Ok(p) => acceptable(email.spec_bytes()) && wallet_text(email.spec_bytes()) == Some(p@),
            Err(e) => e == AppError::InvalidAddress && (!acceptable(email.spec_bytes())
                || wallet_text(email.spec_bytes()) is None),
        },
{
    let bytes = email.as_bytes();
    if bytes.len() == 0 || bytes.len() > MAX_EMAIL_BYTES {
        return Err(AppError::InvalidAddress);
    }
    let hash = sha256(bytes);
    let xdr = wallet_frame(&hash);
    proof {
        assert(xdr@.subrange(0, 8) =~= frame_header());
    }
    wallet_of(address_from_xdr(&xdr))
}

/// Looks wallet addresses up by email.
pub struct EmailToWalletContract;

impl EmailToWalletContract {
    /// The wallet address of `email`.
    pub fn get_wallet_from_email(email: &str) -> (res: Result<Principal, AppError>)
        ensures
            match res {
                Ok(p) => acceptable(email.spec_bytes()) && wallet_text(email.spec_bytes()) == Some(
                    p@,
                ),
                Err(e) => e == AppError::InvalidAddress && (!acceptable(email.spec_bytes())
                    || wallet_text(email.spec_bytes()) is None),
            },
    {
        derive_wallet_address_from_email(email)
    }
}

} // verus!
