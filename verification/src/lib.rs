pub mod op;
pub mod consts;
pub mod frame;
pub mod builder;
pub mod operand;
pub mod alu;
pub mod templates;
pub mod ops_alu;
pub mod ops_stack;
pub mod ops_group;
pub mod ops_move;
pub mod ops_control;
pub mod fpu;
pub mod ops_0f;
pub mod sse;
pub mod decode;
pub mod strings;
pub mod semantics;
pub mod laws;
pub mod memory_laws;
pub mod flag_laws;
pub mod wide_laws;
pub mod helper_laws;
pub mod interp;
