use vstd::prelude::*;

verus! {

/// Closes the token traits of this crate ([`crate::pins::Pin`],
/// [`crate::dma::Dma`], [`crate::spi::Spi`], [`crate::tpm::Timer`]) to the
/// token types it defines: the module is private, so no other crate can
/// implement it.
pub trait Sealed {}

} // verus!
