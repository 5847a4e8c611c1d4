//! Verified core of a scene editor that produces Manim animations.

pub mod text;
pub mod scene;
pub mod history;
pub mod ids;
pub mod render;
pub mod studio;
pub mod shortcuts;
pub mod codegen;
