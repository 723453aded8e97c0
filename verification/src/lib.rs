//! Low-level fuzzy logic toolbox with statically typed operation sets,
//! membership values and expressions.
//!
//! A [`Membership`] is a degree of truth on the unit interval, stored
//! in fixed point as a whole number of thousandths, so that every
//! operation is exact integer arithmetic. An [`Opset`] chooses the
//! meaning of negation, conjunction and disjunction; the choice is part
//! of each value's type, so values built for different operation sets
//! can never be mixed.

pub mod expr;
pub mod opset;
pub mod value;

pub use expr::and::ExprAnd;
pub use expr::compile::{compile, CompileError, Token};
pub use expr::either::ExprEither;
pub use expr::node::ExprNode;
pub use expr::not::ExprNot;
pub use expr::or::ExprOr;
pub use expr::tagged::{ExprTagged, Tag};
pub use expr::value::ExprValue;
pub use expr::tags;
pub use expr::Expr;
pub use opset::list::{Hamacher0, Hamacher1, Hamacher2, Yager1, YagerInf};
pub use opset::marker::OpsetMarker;
pub use opset::traits::{Opset, OpsetDifferentiable};
pub use value::membership::{Membership, Raw, UNIT};
pub use value::traits::Value;
