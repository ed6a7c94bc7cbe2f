//! The verified core of the contest reveal ("reveleitor") panel and of the
//! contest data server: the reveal panel's state machine, the choice of
//! files inside a contest archive, the secret path part, the query
//! parameters of the panel's address, and the server's route naming.

pub mod archive;
pub mod panel;
pub mod query;
pub mod routes;
pub mod secret;
