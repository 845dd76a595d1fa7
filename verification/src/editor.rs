pub mod background;
pub mod linear;
pub mod logo;
pub mod stacked;
