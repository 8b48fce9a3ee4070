pub mod file;
pub mod glyphs;
pub mod icons;
pub mod style;
pub mod table;
