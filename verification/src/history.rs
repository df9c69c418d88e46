//! The shape of one saved transcript. The history store itself — a database
//! owned by the surrounding application — is a collaborator outside this
//! library; only the record it stores is defined here.

use vstd::prelude::*;

verus! {

/// One saved transcript: its row id, its text, and when it was saved.
#[derive(Debug, Clone)]
pub struct HistoryEntry {
    pub id: i64,
    pub text: String,
    pub created_at: String,
}

} // verus!
