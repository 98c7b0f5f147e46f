//! Course and assessment listings for a chat bot: stateless pagination whose
//! whole state travels inside the identifiers of a message's controls.
//!
//! - `pagination`: page slices and the last page of a list.
//! - `text`: decimal text of integers, both ways.
//! - `records`: courses, assessments and decimal numbers.
//! - `codec`: control identifiers (`tag;value`) and what a button click asks for.
//! - `dates`: proximity buckets of due dates.
//! - `tables`: laid-out tables and the text of a page.
//! - `controls`: navigation buttons and the course selector.
//! - `views`: what a list command or a click shows.
//! - `dispatch`: authorization, expiry and decoding of a click.
//! - `messages`: replies to the insert and remove commands.

pub mod pagination;
pub mod text;
pub mod records;
pub mod codec;
pub mod dates;
pub mod tables;
pub mod controls;
pub mod views;
pub mod dispatch;
pub mod messages;
