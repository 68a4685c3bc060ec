//! Relation metadata of a data model: which model a relation field points to,
//! which scalar fields take part on either side, and what happens to dependent
//! records when the referenced record is deleted or updated.

pub mod catalog;
pub mod referential_action;
pub mod relation_info;
