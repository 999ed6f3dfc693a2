//! The aggregate and referential-integrity engine of a team registry.
//!
//! Teams, persons, labels, badges and badge categories live in a relational
//! store, linked by two ownership tables. This library holds everything the
//! registry decides about them: which statements to send to the store and in
//! what order, how a nested team view is put together from the rows that come
//! back, how a sparse edit turns into one `UPDATE`, how scores and ranks are
//! derived, and which dependent rows a forced deletion removes first.
//!
//! Nothing here talks to a store. Every operation is a function from plain
//! values to plain values: a caller performs the statement that a step asks
//! for and hands the outcome back to the next step.
//!
//! - [`schema`]: the records, and how a row is shown.
//! - [`date`]: calendar dates, read from and shown as `year-month-day`.
//! - [`statement`]: statements with positional parameters.
//! - [`loader`]: loading the nested view of a team, step by step.
//! - [`edit`]: sparse edits and the update they become.
//! - [`create`]: creating rows, giving and taking ownership.
//! - [`dispatch`]: deleting and editing by kind; the plan of a deletion.
//! - [`ranking`]: scores, ranks and the listing order, with their laws.
//! - [`recompute`]: the statements that write scores and ranks back.
//! - [`model`]: what a deletion plan does to the rows, and what it leaves.
//! - [`error`]: the failures of a request.
//! - [`text`]: numerals and the order of names.
//! - [`past`]: a filled-in sample team and badge.

pub mod create;
pub mod date;
pub mod dispatch;
pub mod edit;
pub mod error;
pub mod loader;
pub mod model;
pub mod past;
pub mod ranking;
pub mod recompute;
pub mod schema;
pub mod statement;
pub mod text;

pub use crate::edit::{EditBadge, EditCategory, EditLabel, EditPerson, EditTeam};
pub use crate::schema::{
    Badge, BadgeOwnership, Category, CreateBadge, CreateBadgeOwnership, CreateCategory,
    CreateLabel, CreateLabelOwnership, CreatePerson, CreateTeam, Label, LabelOwnership, OwnedBadge,
    Person, RawBadge, RawID, RawPerson, RawTeam, Team,
};
