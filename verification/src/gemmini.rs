//! Matrix multiplication accelerator: the processing element of its systolic
//! array, and the cell and the control of its transposer.

pub mod arithmetic;
pub mod pe;
pub mod transposer;
