//! Small verified building blocks: integer helpers, Fibonacci numbers,
//! a pig-latin translator, median and mode of a list, and the
//! draft / review / publish workflow of a blog post.

pub mod adder;
pub mod anslatortray;
pub mod blog;
pub mod fibonacci;
pub mod medmod;
