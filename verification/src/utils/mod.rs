pub mod hash;
pub mod verification;
