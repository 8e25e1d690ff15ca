pub mod http_source;
pub mod hub;
pub mod mpris_source;
pub mod session;
pub mod timeline;
pub mod track;
