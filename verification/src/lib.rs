pub mod document;
pub mod editor;
pub mod render;
pub mod row;
pub mod text;

pub use document::Document;
pub use editor::Position;
pub use row::Row;
