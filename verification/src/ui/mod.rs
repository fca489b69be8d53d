//! Terminal presentation: styled text and prompt rendering.
pub mod output;
pub mod prompt;
