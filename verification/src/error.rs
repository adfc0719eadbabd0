use vstd::prelude::*;

verus! {

/// Why a watched configuration value could not get its first value.
#[derive(Debug, Clone)]
pub enum WatchInitError<C> {
    RequiredKeyNotExist { cli: C, key: String },
    CannotParse { cli: C, key: String, err_info: String },
    GetFail { cli: C, key: String, err_info: String },
}

impl<C> WatchInitError<C> {
    /// The text of the error, where `cli_text` is how the configuration center displays.
    pub open spec fn message(self, cli_text: Seq<char>) -> Seq<char> {
        match self {
            WatchInitError::RequiredKeyNotExist { key, .. } =>
                "[dyn_cfg] key is required but not exist, confcenter: "@ + cli_text + ", key: "@
                    + key@,
            WatchInitError::CannotParse { key, err_info, .. } =>
                "[dyn_cfg] value parse fail, confcenter: "@ + cli_text + ", key: "@ + key@
                    + ", err_info: "@ + err_info@,
            WatchInitError::GetFail { key, err_info, .. } =>
                "[dyn_cfg] get value fail, confcenter: "@ + cli_text + ", key: "@ + key@
                    + ", err_info: "@ + err_info@,
        }
    }

    /// Renders the error as text, with `cli_text` standing for the configuration center.
    pub fn describe(&self, cli_text: &str) -> (r: String)
        ensures
            r@ == self.message(cli_text@),
    {
        match self {
            WatchInitError::RequiredKeyNotExist { key, .. } => {
                let r = String::from_str("[dyn_cfg] key is required but not exist, confcenter: ");
                let r = r.concat(cli_text);
                let r = r.concat(", key: ");
                r.concat(key.as_str())
            },
            WatchInitError::CannotParse { key, err_info, .. } => {
                let r = String::from_str("[dyn_cfg] value parse fail, confcenter: ");
                let r = r.concat(cli_text);
                let r = r.concat(", key: ");
                let r = r.concat(key.as_str());
                let r = r.concat(", err_info: ");
                r.concat(err_info.as_str())
            },
            WatchInitError::GetFail { key, err_info, .. } => {
                let r = String::from_str("[dyn_cfg] get value fail, confcenter: ");
                let r = r.concat(cli_text);
                let r = r.concat(", key: ");
                let r = r.concat(key.as_str());
                let r = r.concat(", err_info: ");
                r.concat(err_info.as_str())
            },
        }
    }
}

} // verus!
