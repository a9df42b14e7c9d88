pub mod to_bytes;
pub mod match_value;
pub mod action_data;
pub mod table_entry;

pub use to_bytes::ToBytes;
pub use match_value::MatchValue;
pub use action_data::ActionData;
pub use action_data::ActionDataRepeated;
pub use table_entry::TableEntry;
pub use table_entry::Request;
pub use table_entry::RequestType;
pub use table_entry::TableOperation;
