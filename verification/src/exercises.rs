//! Solutions of the exercises that the runner is shipped with, each with the
//! contract that it meets.

pub mod algorithm5;
pub mod algorithm6;
pub mod algorithm7;
pub mod as_ref_mut;
pub mod errors3;
pub mod from_into;
pub mod from_str;
pub mod functions4;
pub mod graph;
pub mod hashmaps1;
pub mod hashmaps3;
pub mod iterators2;
pub mod iterators5;
pub mod modules1;
pub mod move_semantics1;
pub mod move_semantics2;
pub mod move_semantics3;
pub mod move_semantics4;
pub mod move_semantics6;
pub mod quiz1;
pub mod tests3;
pub mod tests4;
pub mod threads3;
pub mod traits2;
