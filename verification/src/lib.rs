//! A client for the INDI device-control protocol: framing of the XML stream,
//! the typed message catalog, and the decisions of the reader loop and of the
//! connection, stated and proved over byte sequences and plain values.

pub mod catalog_row;
pub mod config_file;
pub mod document;
pub mod element;
pub mod frame;
pub mod indi;
pub mod text;
pub mod window;
pub mod xml;
