//! The constraints of the system.
//!
//! A constraint with a residual ([`fix_base_constraint`]) evaluates a scalar
//! squared-error function over a small local variable set and contributes its
//! gradient and Hessian to the global buffers; the set-up helpers
//! ([`lock_constraint`], [`equality_constraint`]) only mutate variable state.

pub mod constraint_type;
pub mod equality_constraint;
pub mod fix_base_constraint;
pub mod lock_constraint;
