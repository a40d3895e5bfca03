//! A writing-project workspace: a work (a book or a series) holding an ordered
//! list of entries (chapters or episodes), with the paths of its directory tree
//! and the decisions taken around creating and loading it.

pub mod domains;
pub mod text;
