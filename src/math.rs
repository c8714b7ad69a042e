pub mod advanced;
pub mod arithmetic;
pub mod number_utils;
