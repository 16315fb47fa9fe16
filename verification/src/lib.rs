//! Domain model and navigation logic of a terminal explorer for railway
//! infrastructure datasets.
//!
//! The crate turns a loosely connected infrastructure document (stations and
//! track segments that name their end points by station code) into a
//! cross-referenced [`api::StationMap`], and it holds the selection state of
//! the two views a user moves between: the list of available infrastructures
//! and the map of one infrastructure with its station and segment lists.
//!
//! Nothing here fetches, parses, draws or reads keys. A caller hands in parsed
//! documents and symbolic key presses and draws from the read-only accessors.
//!
//! - [`api`]: the documents, the station graph and the build of one from the
//!   other.
//! - [`coordinate`]: the integers that stand for measured coordinates.
//! - [`extent`]: the bounding box of a set of positions.
//! - [`selection`]: the moves of a highlighted place in a list.
//! - [`widgets`]: the views and what a key press does to them.
//! - [`events`]: key presses by their meaning.
//! - [`text`]: decimal numerals for the lines of the lists.

pub mod api;
pub mod coordinate;
pub mod events;
pub mod extent;
pub mod selection;
pub mod text;
pub mod widgets;
