pub mod isn;
pub mod seq;
