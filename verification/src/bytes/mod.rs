mod bytes;
mod endian;
mod from_bytes;
mod into_bytes;
mod laws;

pub use bytes::Bytes;
pub use endian::{
    be_u16, be_u32, be_u64, u16_from_be, u32_from_be, u64_from_be, lemma_u16_roundtrip,
    lemma_u16_bytes_roundtrip, lemma_u32_roundtrip, lemma_u32_bytes_roundtrip,
    lemma_u64_roundtrip, lemma_u64_bytes_roundtrip, u16_to_be, u32_to_be, u64_to_be, u16_of_be,
    u32_of_be, u64_of_be,
};
pub use from_bytes::{FromBytes, fixed_width_result};
pub use into_bytes::IntoBytes;
pub use laws::{
    law_usize_bytes_roundtrip, law_u16_bytes_roundtrip, law_u32_bytes_roundtrip,
    law_datetime_bytes_roundtrip, law_string_bytes_roundtrip,
};
