//! Renders the commits of pull requests as aligned text tables, and decides
//! the order of the requests that fetch them.

pub mod request;
pub mod run;
pub mod table;
pub mod text;
