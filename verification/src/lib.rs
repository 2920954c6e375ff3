pub mod cdp;
pub mod json;
pub mod mcp;
pub mod scripts;
pub mod text;
pub mod tools;
