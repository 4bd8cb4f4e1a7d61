//! Verified geometry of a DINOv3 vision transformer: the architecture presets, the
//! token layout, the head split of attention and the index plans of the 2D rotary
//! position embedding. The floating-point tensor work that runs on these plans lives
//! outside this library.

pub mod rope;
pub mod tokens;
pub mod attention;
pub mod arch;
pub mod lora;
