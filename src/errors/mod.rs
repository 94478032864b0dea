pub mod client;
pub mod dgraph;

pub use crate::errors::client::Error as ClientError;
pub use crate::errors::dgraph::Error as DgraphError;
