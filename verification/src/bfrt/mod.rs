pub mod types;
pub mod action;
pub mod data;
pub mod table_key_object;
pub mod learn_filter;

pub use types::BFRTFieldType;
pub use types::FieldKind;
pub use types::TableMatchTypes;
pub use types::TableType;
pub use action::BFRTAction;
pub use data::BFRTData;
pub use data::BFRTSingleton;
pub use table_key_object::BFRTTableKeyObject;
pub use learn_filter::LearnFilterObject;
pub use learn_filter::LearnFilterField;
pub mod table_object;
pub use table_object::BFRTTableObject;
pub mod info;
pub use info::BFRTInfo;
pub mod round_trip;
