//! A small virtual machine runtime for RV32I programs: an exact decoder for
//! the supported instruction subset, and the engine/module/memory/instance
//! composition that carries native code and guest memory under one
//! configuration.

mod config;
mod encoding;
mod engine;
mod error;
mod instance;
mod instruction;
mod memory;
mod module;
mod text;

pub use config::Config;
pub use config::NATIVE_CODE_MULTIPLIER;
pub use encoding::enc_imm_bits;
pub use encoding::enc_itype;
pub use encoding::enc_register;
pub use encoding::enc_shift;
pub use encoding::lemma_decode_wf;
pub use encoding::lemma_encode_decode;
pub use encoding::lemma_shift_masking;
pub use encoding::lemma_sign_extension;
pub use encoding::lemma_system_encoding;
pub use encoding::lemma_unsupported_verbatim;
pub use encoding::spec_encode;
pub use engine::Engine;
pub use error::Error;
pub use error::spec_description;
pub use instance::Instance;
pub use instance::InstanceView;
pub use instruction::RiscVInstruction;
pub use instruction::funct3_of;
pub use instruction::funct7_of;
pub use instruction::imm_bits_of;
pub use instruction::imm_of;
pub use instruction::opcode_of;
pub use instruction::rd_of;
pub use instruction::rs1_of;
pub use instruction::rs2_of;
pub use instruction::shamt_of;
pub use instruction::spec_decode;
pub use memory::Memory;
pub use memory::MemoryView;
pub use module::ArenaProtection;
pub use module::Module;
pub use module::ModuleView;
pub use text::spec_text;
