pub mod connection;
pub mod frame;
pub mod header;
pub mod output;
pub mod recv;
pub mod send;
pub mod seq;
pub mod state;
pub mod stream;
pub mod table;
