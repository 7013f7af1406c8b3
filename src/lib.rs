pub mod batch;
pub mod call;
pub mod config;
pub mod identity;
pub mod outcome;
pub mod patch;
pub mod storage;
pub mod text;
