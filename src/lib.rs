//! A byte buffer for sensitive material: a fixed allocation whose visible
//! length may shrink but never grow, copied only on request, and wiped in
//! full before it is released.

pub mod zvec;
