pub mod decimal;
pub mod lexical;
pub mod time;
