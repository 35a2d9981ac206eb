pub mod backoff;
pub mod ipaddr;
pub mod netcheck;
pub mod reporter;
pub mod session;
