pub mod digest;
pub mod hash;
pub mod hexcode;
pub mod merkle;
pub mod pinata;
pub mod proof_json;
pub mod transcript;
