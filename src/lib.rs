//! A repeating-key additive byte cipher: each payload byte is combined with
//! the key byte at the same position modulo the key length, by wrapping
//! addition to encrypt and wrapping subtraction to decrypt.
pub mod cipher;
pub mod request;
