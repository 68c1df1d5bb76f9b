//! Verified core logic of a TEE worker: benchmark weights of the proxy
//! pallet, trusted getters, the state-transition executor, the A4
//! holding-time assertion, and the decisions of the worker service.
pub mod weights;
pub mod identity;
pub mod a4;
pub mod scale;
pub mod hashing;
pub mod getter;
pub mod state;
pub mod executor;
pub mod vcmp;
pub mod error;
pub mod ocall_factory;
pub mod assertion_handler;
pub mod service;
