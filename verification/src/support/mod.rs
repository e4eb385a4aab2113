pub mod payload;
pub mod text;
pub mod time;
