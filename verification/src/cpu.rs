//! Five-stage core: the fetch stage, its branch predictor, and the execute
//! stage that resolves branches.

pub mod branch_predictor;
pub mod decode;
pub mod exe;
pub mod fetch;
pub mod mem;
pub mod mem_interface;
pub mod regfile;
