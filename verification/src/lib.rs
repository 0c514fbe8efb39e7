//! Verified decision logic of a comment-ranking simulation.
//!
//! The simulation lets simulated users read and vote on the comments of one
//! topic, ranks the comments with one of several sorting methods and measures
//! how close that ranking comes to the ranking by true quality.  This crate
//! holds the parts of that process that are decided on integers and on the
//! configuration enums: which sorting formula applies to a comment, how votes
//! are tallied, how many comments a user reads, the weight each list position
//! carries, and the control state of one simulated topic.

pub mod methods;
pub mod votes;
pub mod sorting_score;
pub mod position_weights;
pub mod interaction;
pub mod topic;
