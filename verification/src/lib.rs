//! A polymorphic bytecode interpreter core: a compiler from a tree-shaped,
//! typed intermediate representation to flat stack bytecode, the trait
//! resolution and monomorphization engine it consults, and the virtual
//! machine that runs the result.

pub mod abi;
pub mod instr;
pub mod error;
pub mod ids;
pub mod types;
pub mod ir;
pub mod items;
pub mod maps;
pub mod shared;
pub mod closure;
pub mod program;
pub mod layout;
pub mod stack;
pub mod select;
pub mod vm;
pub mod laws;
pub mod matcher;
pub mod resolve;
pub mod alu;
pub mod memory;
pub mod machine;
pub mod lowering;
pub mod lower_spec;
pub mod pattern_spec;
pub mod compiler;
pub mod lower;
pub mod lower_more;
pub mod pattern;
pub mod consts;
pub mod eval_spec;
pub mod pattern_laws;
pub mod layout_laws;
pub mod call_laws;
pub mod paths;
pub mod item_api;
