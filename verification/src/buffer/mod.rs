mod from_buffer;
mod into_buffer;
mod laws;
mod to_buffer;

pub use from_buffer::{FromBuffer, leading_width_result, timestamp_read_result};
pub(crate) use from_buffer::read_timestamp;
pub use into_buffer::IntoBuffer;
pub use to_buffer::ToBuffer;
pub use laws::{
    law_usize_buffer_roundtrip, law_u16_buffer_roundtrip, law_u32_buffer_roundtrip,
    law_datetime_buffer_roundtrip, law_string_buffer_roundtrip,
};
