pub mod errors;
pub mod escape;
pub mod events;
pub mod highlight;
pub mod paths;
pub mod pdf;
pub mod render;
mod strutil;
pub mod template;
pub mod tokenize;
