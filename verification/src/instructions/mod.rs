pub mod initialize;
pub mod make;
pub mod refund;
pub mod take;

pub use crate::instructions::initialize::Initialize;
pub use crate::instructions::make::Make;
pub use crate::instructions::refund::Refund;
pub use crate::instructions::take::Take;
