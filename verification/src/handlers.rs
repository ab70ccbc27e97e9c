//! What the request handlers decide, apart from the database, the templates
//! and the network.

pub mod stars;
