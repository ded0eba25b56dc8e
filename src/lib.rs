//! The logic of an interactive kana table: romaji normalisation, the kana
//! index, the grid layout, the focused cell, and the example-card carousel.

pub mod text;
pub mod romaji;
pub mod model;
pub mod index;
pub mod grid;
pub mod focus;
pub mod cards;
pub mod carousel;
pub mod table;

pub use cards::KanaCardComponentProps;
pub use model::{get_kana_display_name, AppConfig, Kana, KanaCard, KanaType};
pub use romaji::normalize;
