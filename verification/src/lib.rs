//! A small web page builder with its rendering rules proved, the state kept by
//! the page server, and the data model of a node dashboard.

pub mod html;
pub mod state;
pub mod node;
pub mod os;
