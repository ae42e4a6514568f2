pub mod global;
pub mod hand;
pub mod proof_buffer;
pub mod table;
