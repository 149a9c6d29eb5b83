use vstd::prelude::*;

use crate::cipher::Mode;

verus! {

/// One run of the cipher: which way to apply the key, and to which file.
#[derive(Clone, Debug, PartialEq, Eq)]
pub struct Operation {
    pub mode: Mode,
    pub source: String,
}

/// Why the command line names no single source file.
#[derive(Clone, Copy, Debug, PartialEq, Eq, Structural)]
pub enum UsageError {
    /// Both a plaintext and a ciphertext file were given.
    BothSources,
    /// Neither a plaintext nor a ciphertext file was given.
    NoSource,
}

/// Resolves the two mutually exclusive source options into one operation:
/// a plaintext file is encrypted, a ciphertext file is decrypted, and giving
/// both or neither is a usage error.
pub fn select_operation(plaintext: Option<String>, ciphertext: Option<String>) -> (r: Result<
    Operation,
    UsageError,
>)
    ensures
        plaintext is Some && ciphertext is Some ==> r == Err::<Operation, UsageError>(
            UsageError::BothSources,
        ),
        plaintext is None && ciphertext is None ==> r == Err::<Operation, UsageError>(
            UsageError::NoSource,
        ),
        plaintext is Some && ciphertext is None ==> r == Ok::<Operation, UsageError>(
            (Operation { mode: Mode::Encrypt, source: plaintext->0 }),
        ),
        plaintext is None && ciphertext is Some ==> r == Ok::<Operation, UsageError>(
            (Operation { mode: Mode::Decrypt, source: ciphertext->0 }),
        ),
{
    match (plaintext, ciphertext) {
        (Some(_), Some(_)) => Err(UsageError::BothSources),
        (None, None) => Err(UsageError::NoSource),
        (Some(p), None) => Ok(Operation { mode: Mode::Encrypt, source: p }),
        (None, Some(c)) => Ok(Operation { mode: Mode::Decrypt, source: c }),
    }
}

} // verus!
