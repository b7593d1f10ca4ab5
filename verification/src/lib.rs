//! Tool capability providers: each provider lists a fixed catalog of tools and
//! invokes one of them by name on an optional JSON argument payload.

pub mod arguments;
pub mod calculator;
pub mod clock;
pub mod encoding;
pub mod json;
pub mod protocol;
pub mod provider;
pub mod schema;
pub mod string_utils;
pub mod system_info;
pub mod text;
