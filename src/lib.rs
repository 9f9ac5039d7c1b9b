//! Hash-to-curve maps, a Pedersen vector commitment and a Chaum–Pedersen
//! verifiable random function over secp256k1.

pub mod limbs;
pub mod field;
pub mod scalar;
pub mod curve;
pub mod error;
pub mod hash_field;
pub mod sw_map;
pub mod isogeny;
pub mod simplified_swu;
pub mod jacobian;
pub mod optimized_swu;
pub mod pedersen;
pub mod vrf;
