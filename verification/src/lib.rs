pub mod clock;
pub mod error;
pub mod handlers;
pub mod ident;
pub mod model;
pub mod router;
pub mod store;
