//! A uniform contract for creating, reading, updating and deleting records
//! over different storage backends, and the generation of its SQL
//! implementations from the shape of an entity type.
//!
//! - [`id`]: identifiers that are tied to the type of the record they name.
//! - [`contract`]: the four operations, their three-way outcomes, and the laws
//!   that hold of them.
//! - [`object`] and [`object_s3`]: records that are blobs of bytes, kept in one
//!   bucket of an S3 style object storage under random keys.
//! - [`sql`]: the SQL backend and the outcome of each operation on it.
//! - [`schema`]: descriptions of tables, and the statements that create them.
//! - [`codegen`]: from the declaration of an entity type to the query and the
//!   bind order of each operation, and to the description of its table.
//! - [`text`]: the text building blocks of the generators.
//!
//! Nothing here talks to a storage. Where a backend has to be asked, the
//! library says what to ask and what the reply means.

pub mod codegen;
pub mod contract;
pub mod id;
pub mod object;
pub mod object_s3;
pub mod schema;
pub mod sql;
pub mod text;
