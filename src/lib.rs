//! Fallible computations driven by repeated polling, and two combinators
//! over them: `AndThen`, which runs a second computation built from the
//! success of a first, and `MapErr`, which remaps the failure of one.

pub mod and_then;
pub mod chain;
pub mod map_err;
pub mod poll;

pub use and_then::{and_then_action, AndThen};
pub use chain::{TryChain, TryChainAction};
pub use map_err::MapErr;
pub use poll::{Poll, TryPoll};
