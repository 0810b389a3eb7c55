//! Planning of SQL set expressions, and the scalar function
//! `character_length`, for a query engine built on `datafusion` and `arrow`.
//!
//! [`translate::set_expr_to_plan`] turns a set expression (a `SELECT`, a
//! `VALUES` list, a nested query, or a `UNION`, `INTERSECT` or `EXCEPT` of two
//! set expressions) into a logical plan. [`arity`] checks that two plans
//! combined by position have the same number of columns, [`dispatch`] picks
//! the plan-building operation for an operator and a quantifier, and [`laws`]
//! states what holds of every translation.
//!
//! [`character_length::character_length`] counts the characters of each
//! string of a column.
//!
//! Plans, the builder's errors and columns are values of the engine. The
//! modules [`plan`] and [`column`] say what is taken on trust about them.

use vstd::prelude::*;

pub mod arity;
pub mod character_length;
pub mod column;
pub mod context;
pub mod diagnostic;
pub mod dispatch;
pub mod error;
pub mod expr;
pub mod function;
pub mod laws;
pub mod operator;
pub mod plan;
pub mod span;
pub mod text;
pub mod translate;
