pub mod config_models;
pub mod dynamic_config;
pub mod error;
pub mod facade;
pub mod mock;
pub mod models;
pub mod watcher;

pub use config_models::MappingConfigWithDefault;
pub use dynamic_config::{
    AttrPath, ConfigMacroError, FieldAttr, FieldConfig, FieldParser, FieldSpec, ItemShape, MetaItem,
    MetaName, MetaValue, config_keys, parse_field_config, plan_dynamic_config,
};
pub use error::WatchInitError;
pub use facade::{ConfDuration, get_bool_from_raw, get_systemd_duration_from_raw};
pub use mock::{PollStep, RecvOutcome, acknowledge, mock_lookup, poll_step};
pub use models::{ConfGetRawResult, ConfGetResult, ConfGetStdError};
pub use watcher::{WatchStep, init_watched_value, watch_step};
