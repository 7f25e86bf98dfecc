//! Small verified demonstrations of core language concepts: a linear scan
//! over a fixed sequence, string representations and their byte views,
//! values held under different ownership strategies, cheap and expensive
//! copies, and a family of structurally identical record types.

pub mod markers;
pub mod ownership;
pub mod records;
pub mod search;
pub mod strings;
