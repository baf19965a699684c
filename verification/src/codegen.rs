//! Generation of storage code from the shape of an entity type.

pub mod attr;
pub mod crud;
pub mod schema;
pub mod shape;
pub mod sql;
