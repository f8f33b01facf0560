//! A verified core of the Litex fact checker: decimal comparison, objects,
//! facts, pattern matching against known universal facts, and the builtin
//! rules that decide atomic facts.
use vstd::prelude::*;

pub mod decimal;
pub mod obj;
pub mod fact;
pub mod known_forall_profile;
pub mod runtime;
pub mod standard_sets;
pub mod order_normalize;
pub mod abs_order;
pub mod arg_map;
pub mod known_forall_match;
pub mod builtin;
pub mod order_algebra;
pub mod algebra_order;
pub mod algebra_special;
pub mod order_extra;
pub mod lower_bound;
pub mod log_order;
pub mod not_equal_extra;
pub mod in_extra;
pub mod range_membership;
pub mod by_syntax;
pub mod subst;
pub mod equality;
pub mod equality_extra;
pub mod full_check;
pub mod pipeline;
pub mod compound;
pub mod not_exist;
pub mod digit_arith;
pub mod div_elimination;
pub mod strategy;
pub mod int_literal;
pub mod evaluate;

pub use decimal::NumberCompareResult;

verus! {
} // verus!
