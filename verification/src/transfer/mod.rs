//! Moving one file between this machine and a server, over a connection that
//! may break at any time.

pub mod flow;
pub mod laws;
pub mod machine;
pub mod model;
pub mod onward;
pub mod record;
