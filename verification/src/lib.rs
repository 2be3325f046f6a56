pub mod arith;
pub mod circle;
pub mod line;
pub mod line_segment;
pub mod oriented_rectangle;
pub mod range;
pub mod rectangle;
pub mod scalar;
pub mod vector;
