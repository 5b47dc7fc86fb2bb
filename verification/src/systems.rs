pub mod man;
