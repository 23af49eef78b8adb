/// The linear decoder: the model of decoding, the lazy fail-stop decoder and the
/// hex-text boundary.
pub mod disasm;
/// Hex text: its model, and the calls into the hex crate.
pub mod hexcode;
/// Laws of decoding, proved over the model.
pub mod lemmas;
/// The opcode catalog: byte values, push classification and mnemonics.
pub mod opcodes;
