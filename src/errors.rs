use vstd::prelude::*;

verus! {

/// What a host call made of its inputs, or a code that the host must never
/// return, which shows a fault on the host's side.
#[derive(Clone, Debug, PartialEq, Eq)]
pub enum HostReply<T> {
    Ready(T),
    ContractViolation { code: u32 },
}

/// A signature check that the host could not carry out.
#[derive(Clone, Copy, Debug, PartialEq, Eq, Structural)]
pub enum VerificationError {
    InvalidHashFormat,
    InvalidSignatureFormat,
    InvalidPubkeyFormat,
    GenericErr,
    UnknownErr { error_code: u32 },
}

/// A public key recovery that the host could not carry out.
#[derive(Clone, Copy, Debug, PartialEq, Eq, Structural)]
pub enum RecoverPubkeyError {
    InvalidHashFormat,
    InvalidSignatureFormat,
    InvalidRecoveryParam,
    UnknownErr { error_code: u32 },
}

/// A signing request that the host could not carry out.
#[derive(Clone, Copy, Debug, PartialEq, Eq, Structural)]
pub enum SigningError {
    InvalidPrivateKeyFormat,
    UnknownErr { error_code: u32 },
}

/// The errors of storage, addresses and gas.
#[derive(Clone, Debug, PartialEq, Eq)]
pub enum StdError {
    /// A human address longer than the host reads.
    InputTooLong,
    /// An empty value handed to storage, which keeps only non-empty ones.
    EmptyValue,
    /// The host refused an address request, with its message.
    HostError { message: String },
    /// The host reported no gas left, or could not say.
    GasUnavailable,
    /// The host refused to burn gas, with its code.
    EvaporateFailed { code: u32 },
}

impl VerificationError {
    pub fn unknown_err(error_code: u32) -> (r: VerificationError)
        ensures
            r == (VerificationError::UnknownErr { error_code }),
    {
        VerificationError::UnknownErr { error_code }
    }
}

impl RecoverPubkeyError {
    pub fn unknown_err(error_code: u32) -> (r: RecoverPubkeyError)
        ensures
            r == (RecoverPubkeyError::UnknownErr { error_code }),
    {
        RecoverPubkeyError::UnknownErr { error_code }
    }
}

impl SigningError {
    pub fn unknown_err(error_code: u32) -> (r: SigningError)
        ensures
            r == (SigningError::UnknownErr { error_code }),
    {
        SigningError::UnknownErr { error_code }
    }
}

/// The code table of secp256k1 verification.
pub open spec fn secp256k1_verify_table(code: u32) -> HostReply<Result<bool, VerificationError>> {
    if code == 0 {
        HostReply::Ready(Ok(true))
    } else if code == 1 {
        HostReply::Ready(Ok(false))
    } else if code == 2 {
        HostReply::ContractViolation { code }
    } else if code == 3 {
        HostReply::Ready(Err(VerificationError::InvalidHashFormat))
    } else if code == 4 {
        HostReply::Ready(Err(VerificationError::InvalidSignatureFormat))
    } else if code == 5 {
        HostReply::Ready(Err(VerificationError::InvalidPubkeyFormat))
    } else if code == 10 {
        HostReply::Ready(Err(VerificationError::GenericErr))
    } else {
        HostReply::Ready(Err(VerificationError::UnknownErr { error_code: code }))
    }
}

/// The code table of ed25519 verification, single and batched.
pub open spec fn ed25519_verify_table(code: u32) -> HostReply<Result<bool, VerificationError>> {
    if code == 0 {
        HostReply::Ready(Ok(true))
    } else if code == 1 {
        HostReply::Ready(Ok(false))
    } else if code == 2 || code == 3 {
        HostReply::ContractViolation { code }
    } else if code == 4 {
        HostReply::Ready(Err(VerificationError::InvalidSignatureFormat))
    } else if code == 5 {
        HostReply::Ready(Err(VerificationError::InvalidPubkeyFormat))
    } else if code == 10 {
        HostReply::Ready(Err(VerificationError::GenericErr))
    } else {
        HostReply::Ready(Err(VerificationError::UnknownErr { error_code: code }))
    }
}

/// The code table of public key recovery; `Ok` where the host wrote the key.
pub open spec fn recover_table(code: u32) -> HostReply<Result<(), RecoverPubkeyError>> {
    if code == 0 {
        HostReply::Ready(Ok(()))
    } else if code == 2 {
        HostReply::ContractViolation { code }
    } else if code == 3 {
        HostReply::Ready(Err(RecoverPubkeyError::InvalidHashFormat))
    } else if code == 4 {
        HostReply::Ready(Err(RecoverPubkeyError::InvalidSignatureFormat))
    } else if code == 6 {
        HostReply::Ready(Err(RecoverPubkeyError::InvalidRecoveryParam))
    } else {
        HostReply::Ready(Err(RecoverPubkeyError::UnknownErr { error_code: code }))
    }
}

/// The code table of signing; `Ok` where the host wrote the signature.
pub open spec fn signing_table(code: u32) -> Result<(), SigningError> {
    if code == 0 {
        Ok(())
    } else if code == 1000 {
        Err(SigningError::InvalidPrivateKeyFormat)
    } else {
        Err(SigningError::UnknownErr { error_code: code })
    }
}

/// Each code table is a function of the code alone: equal codes mean the same
/// thing, and a code outside a table is carried unchanged in its unknown variant.
pub proof fn lemma_code_tables(a: u32, b: u32)
    ensures
        a == b ==> secp256k1_verify_table(a) == secp256k1_verify_table(b)
            && ed25519_verify_table(a) == ed25519_verify_table(b) && recover_table(a)
            == recover_table(b) && signing_table(a) == signing_table(b),
        !(a <= 5 || a == 10) ==> secp256k1_verify_table(a) == HostReply::Ready(
            Err::<bool, VerificationError>(VerificationError::UnknownErr { error_code: a }),
        ),
        !(a <= 5 || a == 10) ==> ed25519_verify_table(a) == HostReply::Ready(
            Err::<bool, VerificationError>(VerificationError::UnknownErr { error_code: a }),
        ),
        !(a == 0 || a == 2 || a == 3 || a == 4 || a == 6) ==> recover_table(a) == HostReply::Ready(
            Err::<(), RecoverPubkeyError>(RecoverPubkeyError::UnknownErr { error_code: a }),
        ),
        !(a == 0 || a == 1000) ==> signing_table(a) == Err::<(), SigningError>(
            SigningError::UnknownErr { error_code: a },
        ),
{
}

/// What a secp256k1 verification code means; the same code always means the same.
pub fn secp256k1_verify_outcome(code: u32) -> (r: HostReply<Result<bool, VerificationError>>)
    ensures
        r == secp256k1_verify_table(code),
{
    match code {
        0 => HostReply::Ready(Ok(true)),
        1 => HostReply::Ready(Ok(false)),
        2 => HostReply::ContractViolation { code },
        3 => HostReply::Ready(Err(VerificationError::InvalidHashFormat)),
        4 => HostReply::Ready(Err(VerificationError::InvalidSignatureFormat)),
        5 => HostReply::Ready(Err(VerificationError::InvalidPubkeyFormat)),
        10 => HostReply::Ready(Err(VerificationError::GenericErr)),
        error_code => HostReply::Ready(Err(VerificationError::unknown_err(error_code))),
    }
}

/// What an ed25519 verification code means; the same code always means the same.
pub fn ed25519_verify_outcome(code: u32) -> (r: HostReply<Result<bool, VerificationError>>)
    ensures
        r == ed25519_verify_table(code),
{
    match code {
        0 => HostReply::Ready(Ok(true)),
        1 => HostReply::Ready(Ok(false)),
        2 | 3 => HostReply::ContractViolation { code },
        4 => HostReply::Ready(Err(VerificationError::InvalidSignatureFormat)),
        5 => HostReply::Ready(Err(VerificationError::InvalidPubkeyFormat)),
        10 => HostReply::Ready(Err(VerificationError::GenericErr)),
        error_code => HostReply::Ready(Err(VerificationError::unknown_err(error_code))),
    }
}

/// What a recovery code means; the same code always means the same.
pub fn recover_outcome(code: u32) -> (r: HostReply<Result<(), RecoverPubkeyError>>)
    ensures
        r == recover_table(code),
{
    match code {
        0 => HostReply::Ready(Ok(())),
        2 => HostReply::ContractViolation { code },
        3 => HostReply::Ready(Err(RecoverPubkeyError::InvalidHashFormat)),
        4 => HostReply::Ready(Err(RecoverPubkeyError::InvalidSignatureFormat)),
        6 => HostReply::Ready(Err(RecoverPubkeyError::InvalidRecoveryParam)),
        error_code => HostReply::Ready(Err(RecoverPubkeyError::unknown_err(error_code))),
    }
}

/// What a signing code means; the same code always means the same.
pub fn signing_outcome(code: u32) -> (r: Result<(), SigningError>)
    ensures
        r == signing_table(code),
{
    match code {
        0 => Ok(()),
        1000 => Err(SigningError::InvalidPrivateKeyFormat),
        error_code => Err(SigningError::unknown_err(error_code)),
    }
}

} // verus!
