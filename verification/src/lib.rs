pub mod json;
pub mod text;
pub mod arguments;
pub mod protocols;
pub mod web_socket;
