//! Verified core of a CircleCI insights reporting tool: the data model for
//! workflow and job metrics, the right-aligned history renderer, the color
//! category mapping, the fixed-column summary formatter, and the request
//! path and authorization header builders.

pub mod api;
pub mod insight;
pub mod num;
pub mod sort;
pub mod text;
pub mod vcs;
