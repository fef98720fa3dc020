pub mod fonts;
pub mod graphics;
pub mod layout;
pub mod rendering;
