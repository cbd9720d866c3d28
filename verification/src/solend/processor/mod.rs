//! Instruction processing of the lending program, one module per instruction.

pub mod add_reserve;
pub mod borrow;
pub mod deposit;
pub mod init_market;
pub mod withdraw;
