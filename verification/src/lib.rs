//! A weather indicator for a status bar: from the payload of the forecast
//! service wttr.in to a one-line indicator, a tooltip of several lines and
//! a class for styling.
//!
//! The library takes the payload as a tree of plain values and does no
//! input or output of its own. A rendering goes in three steps:
//!
//! 1. `snapshot` reads the payload into a typed snapshot, or says which
//!    field the payload lacks;
//! 2. `tooltip` writes the lines of the tooltip, and `render` the indicator
//!    and the class, from the snapshot, a configuration and the moment for
//!    which the rendering is made;
//! 3. the caller hands the output on, as the keys and values that
//!    `RenderedOutput::entries` gives.
//!
//! The steps rest on smaller parts: `icons` has the glyph of each weather
//! code, `lang` the labels in each language, `format` the writing of single
//! values, `indicator` the template of the indicator, `class` the class,
//! `clock` the reading and writing of times and dates, `payload` the tree
//! and `text` the handling of characters. `fetch` holds the rules by which
//! a caller gets the payload.
//!
//! Every function says in its contract what it returns, over plain values:
//! texts as sequences of characters, and each type of data as the value it
//! stands for.

pub mod class;
pub mod clock;
pub mod config;
pub mod fetch;
pub mod format;
pub mod icons;
pub mod indicator;
pub mod lang;
pub mod payload;
pub mod render;
pub mod snapshot;
pub mod text;
pub mod tooltip;
