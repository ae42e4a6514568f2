pub mod admin;
pub mod betting;
pub mod community;
pub mod guards;
pub mod hand;
pub mod proof_buffer;
pub mod showdown;
pub mod table;
