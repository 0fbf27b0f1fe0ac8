//! Provides a reader, writer, and validator for IL4IL modules, along with an assembler for IL4IL assembly.
pub mod function;
pub mod identifier;
pub mod index;
pub mod instruction;
pub mod integer;
pub mod playground;
pub mod run;
pub mod module;
pub mod symbol;
pub mod text;
pub mod type_system;
pub mod binary;
pub mod versioning;
pub mod validation;
pub mod disassemble;
pub mod assembly;
