pub mod ast;
pub mod security;
mod strutil;

pub use security::SecurityAnalyzer;
pub use security::SecurityWarning;
