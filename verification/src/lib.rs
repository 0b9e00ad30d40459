//! A verified model of a decoded media unit ("frame") and its metadata:
//! sentinel-encoded optional timestamps, a status flag set, a side-data
//! store, a metadata dictionary, and the frame's buffer-ownership
//! discipline (owned buffers are released exactly once, borrowed buffers
//! never).

pub mod buffer;
pub mod compliance;
pub mod dictionary;
pub mod flag;
pub mod frame;
pub mod side_data;
pub mod timestamp;

pub use buffer::Buffer;
pub use compliance::Compliance;
pub use dictionary::Dictionary;
pub use dictionary::DictionaryRef;
pub use flag::Flags;
pub use frame::Frame;
pub use frame::Packet;
pub use side_data::SideData;
pub use timestamp::NO_TIMESTAMP;
