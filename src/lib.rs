//! Header relay between an Ethereum-family source chain and a CKB-family
//! destination chain, and the client-type taxonomy that names light clients.

pub mod client_type;
pub mod relay;
