pub mod endpoints;
pub mod http;
pub mod model;
pub mod numfmt;
pub mod row;
pub mod session;
pub mod sqlgen;
pub mod store;
pub mod util;

pub use util::hash_password;
pub use util::hash_password_to_string;
