//! Small utilities: byte/text formatting helpers, the token signer, and the
//! runtime naming model.

pub mod rt;
pub mod textual;
pub mod token;
