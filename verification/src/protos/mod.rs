pub mod encode;
pub mod bfrt_proto;
