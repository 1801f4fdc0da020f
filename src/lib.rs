//! Error-correcting codes and small cryptographic building blocks.
//!
//! The centre of the crate is a Reed-Solomon codec over GF(2^8)
//! (`reed_solomon`), which takes its field arithmetic from the `gf256`
//! crate (`gf`). Beside it stand binary polynomials (`polynomial`), the AES
//! field and cipher (`galois_field`, `aes`), CRC-32, a Hamming(7,4) code,
//! an LFSR, SHA-1, MD5 and HMAC, Diffie-Hellman and Shamir's secret
//! sharing.
pub mod aes;
pub mod crc;
pub mod diffie_hellman;
pub mod galois_field;
pub mod gf;
pub mod hamming;
pub mod hmac;
pub mod lfsr;
pub mod md5;
pub mod polynomial;
pub mod reed_solomon;
pub mod sha1;
pub mod shamir;
