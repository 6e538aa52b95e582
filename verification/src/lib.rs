//! The core of a custody program: value is locked into a record at a derived
//! address and released only when the accounts and signatures of the
//! invocation satisfy the rules of the operation.
//!
//! The pieces, leaves first:
//!
//! - `address`: addresses and their derivation from seeds;
//! - `bytes` and `codec`: little-endian integers and the decoding of
//!   instructions;
//! - `account` and `schema`: the accounts of an invocation as plain values,
//!   and their validation against the schema of an operation;
//! - `record`: the persisted custody record;
//! - `ledger`: what the surrounding ledger does when it is asked to create
//!   storage or to transfer;
//! - `calls`: the calls that an operation asks of the ledger, as values,
//!   and what they leave of the accounts when they are carried out in order;
//! - `make`, `take`, `refund` and `escrow`: the operations of the escrow
//!   program, validated first, then planned as calls, and their dispatch;
//! - `lifecycle`: what holds of a record from its creation to its end;
//! - `vault`, `owned_vault`, `token_vault`, `storage`, `counter` and
//!   `router`: the smaller programs built from the same pieces.
//!
//! An operation is validated without touching any account, and then planned
//! as a list of calls. Whoever runs the program on a ledger performs those
//! calls there. Carried out on an account list here, they either make the
//! whole transition or leave every account as it was, and one
//! `CustodyError` says why.

pub mod account;
pub mod address;
pub mod bytes;
pub mod calls;
pub mod codec;
pub mod counter;
pub mod error;
pub mod escrow;
pub mod helpers;
pub mod ledger;
pub mod lifecycle;
pub mod make;
pub mod owned_vault;
pub mod record;
pub mod refund;
pub mod router;
pub mod schema;
pub mod storage;
pub mod take;
pub mod token_vault;
pub mod vault;
