//! The single-active-session store and the records kept about sessions.

pub mod manager;
pub mod storage;
