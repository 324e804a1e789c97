//! Plain row and payload types exchanged with the storage and visualization
//! collaborators. The engine treats them as inert values: they are defined
//! here so that contracts and callers can speak about their fields, while
//! the querying itself stays outside the library.

use vstd::prelude::*;

verus! {

/// One collected data point as the visualization side reads it back:
/// a timestamp and the recorded value.
#[derive(Debug, Clone)]
pub struct RawDataObj {
    pub timestamp: i64,
    pub value: String,
}

/// One collected data point as the persistence sink accepts it: the answer
/// value together with the question it answers, its source, and the user
/// who gave it.
#[derive(Debug, Clone)]
pub struct PublishableDataObj {
    pub timestamp: i64,
    pub question_key: String,
    pub value: String,
    pub source: String,
    pub user_id: i32,
}

/// A stored to-do style row: the data-point listing the visualization
/// backend serves.
#[derive(Debug, Clone)]
pub struct Todo {
    pub id: i32,
    pub timestamp: i64,
    pub value: String,
}

/// A partial update of a [`Todo`] row; absent fields stay untouched.
#[derive(Debug, Clone)]
pub struct TodoPatch {
    pub title: Option<String>,
    pub status: Option<TodoStatus>,
}

/// The lifecycle state of a [`Todo`] row.
#[derive(Debug, Clone, Copy, PartialEq, Eq, Structural)]
pub enum TodoStatus {
    Open,
    Close,
}

/// A question category row: ordering priority and description included.
#[derive(Debug, Clone)]
pub struct VizCategoriesObj {
    pub id: i32,
    pub name: String,
    pub priority: i32,
    pub description: String,
}

/// A key-value metadata row.
#[derive(Debug, Clone)]
pub struct VizMetadataObj {
    pub key: String,
    pub value: String,
}

/// A question row as the visualization backend serves it.
#[derive(Debug, Clone)]
pub struct VizQuestionsObj {
    pub key: String,
    pub question: String,
    pub question_type: String,
    pub max_value: Option<i32>,
    pub min_value: Option<i32>,
    pub buttons: Option<String>,
    pub is_positive: bool,
    pub is_reverse: bool,
    pub display_name: String,
}

} // verus!
