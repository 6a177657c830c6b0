//! Authentication core of the member dashboard service: validated email
//! addresses, password hashing, signed session tokens, the bearer-token guard
//! in front of protected routes, and the register / login decisions.
use vstd::prelude::*;

pub mod auth;
pub mod email;
pub mod guard;
pub mod jwt;
pub mod members;
pub mod password;

pub use email::{Email, InvalidEmail};
pub use guard::QueryHeader;

verus! {

} // verus!
