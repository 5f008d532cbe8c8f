//! Lectures, the content of a module.

use vstd::prelude::*;

verus! {

/// A lecture. Its record id is kept in its text form (`table:key`).
#[derive(Debug, PartialEq, Eq)]
pub struct LectureModel {
    pub id: Option<String>,
    pub title: String,
    pub description: String,
    pub content: String,
}

} // verus!
