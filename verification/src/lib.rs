pub mod detect;
pub mod text;
pub mod generate;
