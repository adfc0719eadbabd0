use dyn_cfg::{ConfGetRawResult, ConfGetResult, ConfGetStdError};

fn s(x: &str) -> String {
    x.to_string()
}

fn raw_exist() -> ConfGetRawResult {
    ConfGetRawResult::Exist(s("v"))
}

fn raw_missing() -> ConfGetRawResult {
    ConfGetRawResult::NotExist { key: s("k") }
}

fn raw_fail() -> ConfGetRawResult {
    ConfGetRawResult::GetFail { key: s("k"), err_info: s("boom") }
}

#[test]
fn raw_into_std_result() {
    assert!(matches!(raw_exist().into_std_result(), Ok(v) if v == "v"));
    assert!(matches!(raw_missing().into_std_result(), Err(ConfGetStdError::NotExist { key }) if key == "k"));
    assert!(matches!(raw_fail().into_std_result(),
        Err(ConfGetStdError::GetFail { key, err_info }) if key == "k" && err_info == "boom"));
}

#[test]
fn raw_into_std_result_option() {
    assert!(matches!(raw_exist().into_std_result_option(), Ok(Some(v)) if v == "v"));
    assert!(matches!(raw_missing().into_std_result_option(), Ok(None)));
    assert!(matches!(raw_fail().into_std_result_option(),
        Err(ConfGetStdError::GetFail { key, err_info }) if key == "k" && err_info == "boom"));
}

#[test]
fn raw_unwrap_or() {
    assert_eq!(raw_exist().unwrap_or(s("d")), "v");
    assert_eq!(raw_missing().unwrap_or(s("d")), "d");
    assert_eq!(raw_fail().unwrap_or(s("d")), "d");
}

#[test]
fn raw_unwrap_optional_or() {
    assert!(matches!(raw_exist().unwrap_optional_or(s("d")), Ok(v) if v == "v"));
    assert!(matches!(raw_missing().unwrap_optional_or(s("d")), Ok(v) if v == "d"));
    assert!(matches!(raw_fail().unwrap_optional_or(s("d")), Err(ConfGetStdError::GetFail { .. })));
}

#[test]
fn raw_inspect_not_exist_calls_only_for_missing() {
    let mut seen = Vec::new();
    let r = raw_missing().inspect_not_exist(|k| seen.push(k));
    assert!(r.is_not_exist());
    assert_eq!(seen, vec![s("k")]);
    let mut seen2: Vec<String> = Vec::new();
    let r = raw_exist().inspect_not_exist(|k| seen2.push(k));
    assert!(matches!(r, ConfGetRawResult::Exist(v) if v == "v"));
    assert!(seen2.is_empty());
}

#[test]
fn raw_is_not_exist() {
    assert!(!raw_exist().is_not_exist());
    assert!(raw_missing().is_not_exist());
    assert!(!raw_fail().is_not_exist());
}

#[test]
fn raw_from_static_str() {
    let r: ConfGetRawResult = "10".into();
    assert!(matches!(r, ConfGetRawResult::Exist(v) if v == "10"));
}

fn typed(kind: u8) -> ConfGetResult<u32> {
    match kind {
        0 => ConfGetResult::Exist(5),
        1 => ConfGetResult::NotExist { key: s("k") },
        2 => ConfGetResult::GetFail { key: s("k"), err_info: s("boom") },
        _ => ConfGetResult::ParseFail { key: s("k"), err_info: s("bad") },
    }
}

#[test]
fn typed_into_std_result() {
    assert!(matches!(typed(0).into_std_result(), Ok(5)));
    assert!(matches!(typed(1).into_std_result(), Err(ConfGetStdError::NotExist { .. })));
    assert!(matches!(typed(2).into_std_result(), Err(ConfGetStdError::GetFail { .. })));
    assert!(matches!(typed(3).into_std_result(),
        Err(ConfGetStdError::ParseFail { key, err_info }) if key == "k" && err_info == "bad"));
}

#[test]
fn typed_into_std_result_option() {
    assert!(matches!(typed(0).into_std_result_option(), Ok(Some(5))));
    assert!(matches!(typed(1).into_std_result_option(), Ok(None)));
    assert!(matches!(typed(2).into_std_result_option(), Err(ConfGetStdError::GetFail { .. })));
    assert!(matches!(typed(3).into_std_result_option(), Err(ConfGetStdError::ParseFail { .. })));
}

#[test]
fn typed_unwrap_or_and_optional() {
    assert_eq!(typed(0).unwrap_or(9), 5);
    assert_eq!(typed(1).unwrap_or(9), 9);
    assert_eq!(typed(2).unwrap_or(9), 9);
    assert_eq!(typed(3).unwrap_or(9), 9);
    assert!(matches!(typed(0).unwrap_optional_or(9), Ok(5)));
    assert!(matches!(typed(1).unwrap_optional_or(9), Ok(9)));
    assert!(matches!(typed(2).unwrap_optional_or(9), Err(ConfGetStdError::GetFail { .. })));
    assert!(matches!(typed(3).unwrap_optional_or(9), Err(ConfGetStdError::ParseFail { .. })));
}

#[test]
fn typed_inspect_and_is_not_exist() {
    let mut seen = Vec::new();
    let r = typed(1).inspect_not_exist(|k| seen.push(k));
    assert!(r.is_not_exist());
    assert_eq!(seen, vec![s("k")]);
    let r = typed(3).inspect_not_exist(|_| panic!("not called"));
    assert!(!r.is_not_exist());
}

#[test]
fn std_error_messages() {
    assert_eq!(ConfGetStdError::NotExist { key: s("a") }.to_string(), "conf key not_exist: a");
    assert_eq!(
        ConfGetStdError::GetFail { key: s("a"), err_info: s("x") }.to_string(),
        "get conf fail, key: a, err_info: x"
    );
    assert_eq!(
        ConfGetStdError::ParseFail { key: s("a"), err_info: s("x") }.to_string(),
        "parse conf fail, key: a, err_info: x"
    );
}

#[test]
fn handlings_agree_on_concrete_values() {
    for kind in 0..4u8 {
        let a = typed(kind).unwrap_or(9);
        let b = match typed(kind).into_std_result() {
            Ok(v) => v,
            Err(_) => 9,
        };
        assert_eq!(a, b);
        let c = typed(kind).unwrap_optional_or(9).ok();
        let d = typed(kind).into_std_result_option().ok().map(|o| o.unwrap_or(9));
        assert_eq!(c, d);
    }
}
