//! Window aggregation, grouping and filtering for a dock of open applications.
//!
//! The crate turns a changing set of window facts and an ordered list of pinned
//! applications into the ordered list of items that a dock displays.
//!
//! - [`window`] holds the open windows, [`favorites`] the pinned applications,
//!   [`context`] the focus, and [`config`] the persisted settings.
//! - [`filter`] decides which windows are visible, [`aggregate`] classifies
//!   them into display groups, and [`display`] merges the groups with the
//!   favorites.
//! - [`engine`] keeps the three tables together and moves them on with each
//!   event and each action of the user.
//! - [`pinning`], [`distinct`] and [`order`] state what holds of every list
//!   that comes out: how pinned applications show, that no item shows twice,
//!   and that the order of the items is stable.
//! - [`title`], [`names`] and [`seqs`] are what the others build on.

pub mod aggregate;
pub mod config;
pub mod context;
pub mod display;
pub mod distinct;
pub mod engine;
pub mod favorites;
pub mod filter;
pub mod names;
pub mod order;
pub mod pinning;
pub mod seqs;
pub mod title;
pub mod window;
