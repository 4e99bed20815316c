pub mod diagnostic;
pub mod expression;
pub mod kind;
pub mod new_relic;
pub mod not;
pub mod value;
