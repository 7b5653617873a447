//! DMX512 and Remote Device Management (RDM) data types, with verified
//! encoding and decoding of RDM frames.

pub mod rdm;
