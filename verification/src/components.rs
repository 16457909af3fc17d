//! Parts of the front end that do not depend on how results are shown.

pub mod app;
