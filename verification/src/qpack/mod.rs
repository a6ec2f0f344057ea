//! QPACK header compression (RFC 9204).

pub mod integer;
pub mod header;
pub mod table;
pub mod huffman;
pub mod huffman_table;
pub mod huffman_roundtrip;
pub mod dynamic_table;
pub mod wire;
pub mod decoder;
pub mod encoder;
pub mod roundtrip;
pub mod dynamic_roundtrip;
pub mod decoder_stream;
pub mod encoder_stream;

pub use decoder::{DecodeOutput, Decoder, DynamicDecoder};
pub use decoder_stream::{DecoderInstruction, DecoderStream, DecoderStreamReceiver};
pub use dynamic_table::{DynamicEntry, DynamicTable};
pub use encoder::{DynamicEncoder, Encoder, estimate_encoded_size};
pub use encoder_stream::{EncoderInstruction, EncoderStream, EncoderStreamReceiver};
pub use header::{Header, HeaderError};
pub use table::{STATIC_TABLE, STATIC_TABLE_LEN, find_static_entry, get_static_entry};
