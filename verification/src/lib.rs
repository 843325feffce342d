//! A byte region that is filled incrementally from its tail end, tracking
//! which bytes are logically filled and which hold a defined value.

pub mod rev_buf;
