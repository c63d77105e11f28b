//! Snowflake ID generation: 64-bit IDs made of a millisecond timestamp, a
//! worker id and a per-millisecond sequence number.
pub mod default_id_generator;
pub mod encoding;
pub mod fast_generator;
pub mod generator;
pub mod id_helper;
pub mod iworker;
pub mod layout;
pub mod options;
pub mod over_cost_action_arg;
pub mod snow_worker_m1;
pub mod snow_worker_m2;
pub mod time;

pub use options::IGOptions;
pub use options::IGOptionsBuilder;
pub use options::DEFAULT_BASE_TIME;
pub use fast_generator::FastIdGenerator;
pub use fast_generator::IdGeneratorMetrics;
pub use encoding::IdEncoding;
pub use encoding::IdDecoding;
pub use id_helper::IdInfo;
pub use id_helper::is_initialized;
pub use id_helper::set_options;
pub use id_helper::get_options;
pub use id_helper::try_next_id;
pub use id_helper::next_id;
pub use id_helper::next_ids;
pub use id_helper::extract_time;
pub use id_helper::extract_id_info;
pub use id_helper::extract_id_infos;
