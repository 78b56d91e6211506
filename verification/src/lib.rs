//! A silent payments wallet and the decisions of the node that feeds it.
pub mod address;
pub mod broadcast;
pub mod cli;
pub mod coins;
pub mod ext;
pub mod generate;
pub mod keys;
pub mod keys_file;
pub mod net;
pub mod secp;
pub mod sending;
pub mod silent_payments;
pub mod tasks;
pub mod text;
pub mod transaction;
pub mod wallet;
