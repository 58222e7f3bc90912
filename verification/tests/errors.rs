use errutil::Debugging;
use errutil::ErrorAnyhow;
use errutil::OptionAnyhow;
use errutil::SourceLocation;
use errutil::StringAnyhow;

#[test]
fn string_anyhow() {
    let result: Result<i32, String> = Ok(1);
    let result = result.anyhow();
    assert_eq!(result.unwrap(), 1);
    let result: Result<i32, String> = Err("error".to_string());
    let result = result.anymsg("test");
    assert_eq!(result.unwrap_err().to_string(), "test: error");
}

#[test]
fn error_anyhow() {
    let result: Result<i32, anyhow::Error> = Ok(1);
    let result = result.anyhow();
    assert_eq!(result.unwrap(), 1);
    let result: Result<i32, anyhow::Error> = Err(anyhow::Error::msg("error"));
    let result = result.anymsg("test");
    assert_eq!(result.unwrap_err().to_string(), "test: error");
}

#[test]
fn option_anyhow() {
    let result: Option<i32> = Some(1);
    let result = result.anyhow();
    assert_eq!(result.unwrap(), 1);
    let result: Option<i32> = None;
    let result = result.anymsg("test");
    assert_eq!(result.unwrap_err().to_string(), "test");
}

#[test]
fn debugging() {
    let result: Result<i32, anyhow::Error> = Ok(1);
    let (result, _) = result.log();
    assert_eq!(result.unwrap(), 1);
    let result: Result<i32, anyhow::Error> = Err(anyhow::Error::msg("error"));
    let (result, _) = result.logmsg("test");
    assert_eq!(result.unwrap_err().to_string(), "error");
    let result: Option<i32> = Some(1);
    let (result, _) = result.log();
    assert_eq!(result.unwrap(), 1);
    let result: Option<i32> = None;
    let (result, _) = result.logmsg("test");
    assert_eq!(result.unwrap_err().to_string(), "test");
}

#[test]
fn string_anyhow_err_keeps_message() {
    let result: Result<i32, String> = Err("msg".to_string());
    let result = result.anyhow();
    assert_eq!(result.unwrap_err().to_string(), "msg");
}

#[test]
fn option_anyhow_absence_sentinel() {
    let result: Option<i32> = None;
    let result = result.anyhow();
    assert_eq!(result.unwrap_err().to_string(), "Option is None");
}

#[test]
fn log_ok_emits_no_record() {
    let result: Result<i32, anyhow::Error> = Ok(1);
    let (result, record) = result.log();
    assert_eq!(result.unwrap(), 1);
    assert!(record.is_none());
}

#[test]
fn logmsg_err_record_and_result_differ() {
    let result: Result<i32, anyhow::Error> = Err(anyhow::Error::msg("error"));
    let (result, record) = result.logmsg("test");
    assert_eq!(result.unwrap_err().to_string(), "error");
    let record = record.unwrap();
    assert!(record.starts_with("test: error"));
}

#[test]
fn log_err_record_is_debug_rendering() {
    let result: Result<i32, anyhow::Error> = Err(anyhow::Error::msg("boom"));
    let (result, record) = result.log();
    assert!(record.unwrap().starts_with("boom"));
    assert_eq!(result.unwrap_err().to_string(), "boom");
}

#[test]
fn log_absent_option_sentinel_record() {
    let result: Option<i32> = None;
    let (result, record) = result.log();
    assert_eq!(record.unwrap(), "Option is None");
    assert_eq!(result.unwrap_err().to_string(), "Option is None");
}

#[test]
fn logmsg_absent_option_record_is_message_alone() {
    let result: Option<i32> = None;
    let (result, record) = result.logmsg("test");
    assert_eq!(record.unwrap(), "test");
    assert_eq!(result.unwrap_err().to_string(), "test");
}

#[test]
fn context_wraps_with_call_site() {
    let loc = SourceLocation { file: "main.rs".to_string(), line: 7, column: 12 };
    let result: Result<i32, anyhow::Error> = Err(anyhow::Error::msg("boom"));
    let result = result.context("\"cfg\"".to_string(), &loc);
    let err = result.unwrap_err();
    assert_eq!(err.to_string(), "\"cfg\" at 'main.rs@7:12'");
    let texts: Vec<String> = err.chain().map(|c| c.to_string()).collect();
    assert_eq!(texts, vec!["\"cfg\" at 'main.rs@7:12'".to_string(), "boom".to_string()]);
}

#[test]
fn dot_wraps_with_call_site_alone() {
    let loc = SourceLocation { file: "lib.rs".to_string(), line: 30, column: 5 };
    let result: Result<i32, anyhow::Error> = Err(anyhow::Error::msg("boom"));
    let result = result.dot(&loc);
    let err = result.unwrap_err();
    assert_eq!(err.to_string(), "at 'lib.rs@30:5'");
    let texts: Vec<String> = err.chain().map(|c| c.to_string()).collect();
    assert_eq!(texts, vec!["at 'lib.rs@30:5'".to_string(), "boom".to_string()]);
}

#[test]
fn context_on_absent_option_wraps_sentinel() {
    let loc = SourceLocation { file: "opt.rs".to_string(), line: 2, column: 9 };
    let result: Option<i32> = None;
    let result = result.context("note".to_string(), &loc);
    let err = result.unwrap_err();
    assert_eq!(err.to_string(), "note at 'opt.rs@2:9'");
    let texts: Vec<String> = err.chain().map(|c| c.to_string()).collect();
    assert_eq!(texts, vec!["note at 'opt.rs@2:9'".to_string(), "Option is None".to_string()]);
}

#[test]
fn dot_on_absent_option_wraps_sentinel() {
    let loc = SourceLocation { file: "opt.rs".to_string(), line: 8, column: 1 };
    let result: Option<i32> = None;
    let result = result.dot(&loc);
    let err = result.unwrap_err();
    assert_eq!(err.to_string(), "at 'opt.rs@8:1'");
}

#[test]
fn context_layers_recoverable_in_application_order() {
    let loc1 = SourceLocation { file: "a.rs".to_string(), line: 1, column: 2 };
    let loc2 = SourceLocation { file: "b.rs".to_string(), line: 3, column: 4 };
    let result: Result<i32, anyhow::Error> = Err(anyhow::Error::msg("root"));
    let result = result.context("v1".to_string(), &loc1);
    let result = result.context("v2".to_string(), &loc2);
    let err = result.unwrap_err();
    let texts: Vec<String> = err.chain().map(|c| c.to_string()).collect();
    assert_eq!(
        texts,
        vec![
            "v2 at 'b.rs@3:4'".to_string(),
            "v1 at 'a.rs@1:2'".to_string(),
            "root".to_string()
        ]
    );
}

#[test]
fn annotators_are_no_ops_on_success() {
    let loc = SourceLocation { file: "x.rs".to_string(), line: 1, column: 1 };
    let result: Result<i32, anyhow::Error> = Ok(5);
    let (result, record) = result.log();
    assert!(record.is_none());
    let (result, record) = result.logmsg("m");
    assert!(record.is_none());
    let result = result.context("c".to_string(), &loc);
    let result = result.dot(&loc);
    assert_eq!(result.unwrap(), 5);

    let option: Option<i32> = Some(5);
    let (result, record) = option.log();
    assert!(record.is_none());
    assert_eq!(result.unwrap(), 5);
    let option: Option<i32> = Some(5);
    let (result, record) = option.logmsg("m");
    assert!(record.is_none());
    assert_eq!(result.unwrap(), 5);
    let option: Option<i32> = Some(5);
    assert_eq!(option.context("c".to_string(), &loc).unwrap(), 5);
    let option: Option<i32> = Some(5);
    assert_eq!(option.dot(&loc).unwrap(), 5);
}

#[test]
fn normalizers_pass_success_through() {
    let result: Result<i32, String> = Ok(2);
    assert_eq!(result.anymsg("m").unwrap(), 2);
    let result: Result<i32, anyhow::Error> = Ok(3);
    assert_eq!(result.anymsg("m").unwrap(), 3);
    let option: Option<i32> = Some(4);
    assert_eq!(option.anymsg("m").unwrap(), 4);
}
