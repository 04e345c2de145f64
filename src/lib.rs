//! Small value types: a user record, colour and point triples, and an
//! axis-aligned rectangle with area and containment queries.

pub mod rectangle;
pub mod user;
