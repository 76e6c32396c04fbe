use huiyu_db_mapper::base::datetime::format_date_time_local_from_str;
use huiyu_db_mapper::base::datetime::datetime_local_from_seconds;
use huiyu_db_mapper::base::datetime::local_from_offset;
use huiyu_db_mapper::sql::transaction::{finish_action, transaction_result, TxAction};
use huiyu_db_mapper::base::datetime::LocalDateTime;
use huiyu_db_mapper::base::db_type::DbType;
use huiyu_db_mapper::base::error::DatabaseError;
use huiyu_db_mapper::base::page::{Page, PageRes};
use huiyu_db_mapper::base::param::{get_param_value, get_param_value_ref, IntoParamValue, ParamValue};
use huiyu_db_mapper::base::param_convert::{read_value, FromParamValue};
use huiyu_db_mapper::util::parse::{parse_bool, parse_int, parse_u32};
use huiyu_db_mapper::util::text::{i64_text, join, placeholder_list, u64_text};

#[test]
fn value_texts() {
    assert_eq!(ParamValue::I8(-7).to_string(), "-7");
    assert_eq!(ParamValue::U64(u64::MAX).to_string(), "18446744073709551615");
    assert_eq!(ParamValue::I64(i64::MIN).to_string(), "-9223372036854775808");
    assert_eq!(ParamValue::Bool(true).to_string(), "true");
    assert_eq!(ParamValue::Null.to_string(), "null");
    assert_eq!(ParamValue::Blob(vec![104, 105]).to_string(), "hi");
    assert_eq!(ParamValue::Clob(vec![0xff, 0xfe]).to_string(), "");
    assert_eq!(ParamValue::F64 { bits: 1.5f64.to_bits(), text: "1.5".to_string() }.to_string(), "1.5");
    assert!(ParamValue::Null.is_null());
    assert!(ParamValue::I32(0).is_not_null());
}

#[test]
fn optional_fields_become_values() {
    assert!(matches!(get_param_value(Some(3i32)), ParamValue::I32(3)));
    assert!(matches!(get_param_value::<i64>(None), ParamValue::Null));
    assert_eq!(get_param_value_ref(&Some("x".to_string())).to_string(), "x");
    assert!(matches!(get_param_value_ref::<u8>(&None), ParamValue::Null));
    assert!(matches!("ab".into_param_value(), ParamValue::String(_)));
    assert!(matches!(vec![1u8].into_param_value(), ParamValue::Blob(_)));
}

#[test]
fn reading_numbers_out_of_values() {
    assert_eq!(i32::from_param_value(ParamValue::U32(u32::MAX)), Some(-1));
    assert_eq!(i32::from_param_value(ParamValue::String("42".to_string())), Some(42));
    assert_eq!(i32::from_param_value(ParamValue::String("4x".to_string())), Some(0));
    assert_eq!(i8::from_param_value(ParamValue::I16(3)), None);
    assert_eq!(i8::from_param_value(ParamValue::U8(200)), Some(-56));
    assert_eq!(u8::from_param_value(ParamValue::I8(3)), None);
    assert_eq!(u8::from_param_value(ParamValue::String("-1".to_string())), Some(0));
    assert_eq!(i16::from_param_value(ParamValue::String("-32768".to_string())), Some(-32768));
    assert_eq!(i16::from_param_value(ParamValue::String("32768".to_string())), Some(0));
    assert_eq!(u64::from_param_value(ParamValue::String("+18446744073709551615".to_string())), Some(u64::MAX));
    assert_eq!(i64::from_param_value(ParamValue::U64(u64::MAX)), Some(-1));
    assert_eq!(usize::from_param_value(ParamValue::U32(7)), Some(7));
    assert_eq!(bool::from_param_value(ParamValue::String("true".to_string())), Some(true));
    assert_eq!(bool::from_param_value(ParamValue::String("yes".to_string())), Some(false));
    assert_eq!(bool::from_param_value(ParamValue::I8(1)), None);
    assert_eq!(String::from_param_value(ParamValue::Null), None);
    assert_eq!(String::from_param_value(ParamValue::I64(-5)), Some("-5".to_string()));
    assert_eq!(Vec::<u8>::from_param_value(ParamValue::Clob(vec![1, 2])), Some(vec![1, 2]));
    assert_eq!(read_value::<i64>(ParamValue::Null), 0);
    assert_eq!(read_value::<String>(ParamValue::Null), "");
}

#[test]
fn value_reading_helpers() {
    assert_eq!(ParamValue::Bool(true).as_number_or::<i64>(7), 7);
    assert_eq!(ParamValue::I32(3).as_number_or::<i64>(7), 3);
    assert_eq!(ParamValue::U16(3).as_option::<u32>(), Some(3));
    assert!(ParamValue::U16(3).can_convert_to::<u16>());
    assert!(!ParamValue::Null.can_convert_to::<u16>());
}

#[test]
fn text_parsing() {
    assert_eq!(parse_u32("4294967295"), Some(u32::MAX));
    assert_eq!(parse_u32("4294967296"), None);
    assert_eq!(parse_u32("+12"), Some(12));
    assert_eq!(parse_u32("-0"), None);
    assert_eq!(parse_u32(""), None);
    assert_eq!(parse_u32("+"), None);
    assert_eq!(parse_int("-128", -128, 127), Some(-128));
    assert_eq!(parse_int("-129", -128, 127), None);
    assert_eq!(parse_int("12a", -128, 127), None);
    assert_eq!(parse_bool("false"), Some(false));
    assert_eq!(parse_bool("True"), None);
}

#[test]
fn number_texts_and_joins() {
    assert_eq!(u64_text(0), "0");
    assert_eq!(u64_text(1200), "1200");
    assert_eq!(i64_text(-45), "-45");
    assert_eq!(join(&vec!["a".to_string(), "b".to_string()], ", "), "a, b");
    assert_eq!(join(&Vec::new(), ","), "");
    assert_eq!(placeholder_list(3), "?,?,?");
    assert_eq!(placeholder_list(0), "");
}

#[test]
fn pages_cover_all_rows() {
    let p = Page::new(2, 20);
    assert_eq!((p.current_page, p.page_size), (2, 20));
    let r = PageRes::new_from_records(10, 3, vec![1, 2, 3]);
    assert_eq!((r.total_size, r.page_size, r.total_page, r.records.len()), (10, 3, 4, 3));
    assert_eq!(PageRes::new_from_records(9, 3, Vec::<u8>::new()).total_page, 3);
    assert_eq!(PageRes::new_from_records(0, 3, Vec::<u8>::new()).total_page, 0);
    assert_eq!(PageRes::new_from_records(5, 0, Vec::<u8>::new()).total_page, 0);
    let e: PageRes<u8> = PageRes::new();
    assert_eq!((e.total_size, e.page_size, e.total_page, e.records.len()), (0, 0, 0, 0));
}

#[test]
fn kind_and_error_texts() {
    assert_eq!(DbType::Sqlite.to_string(), "sqlite");
    assert_eq!(DbType::Dameng.to_string(), "dameng");
    assert_eq!(DatabaseError::NotFoundError("x".to_string()).to_string(), "Not Found Error : x");
    assert_eq!(DatabaseError::CommonError("x".to_string()).to_string(), "Business Error");
    assert_eq!(DatabaseError::ConfigNotFoundError("y".to_string()).to_string(), "Config Not Found: y");
    assert_eq!(DatabaseError::ExecuteError("z".to_string()).to_string(), "Execute Error: z");
}

#[test]
fn date_time_texts() {
    let d = LocalDateTime::new(0, 0, 0).unwrap();
    assert_eq!(d.to_string(), "1970-01-01 00:00:00 +00:00");
    let e = LocalDateTime::new(0, 0, 8 * 3600).unwrap();
    assert_eq!(e.to_string(), "1970-01-01 08:00:00 +08:00");
    assert_eq!((e.secs(), e.nanos(), e.offset_secs()), (0, 0, 28800));
    assert!(LocalDateTime::new(0, 0, 86_400).is_none());
    assert!(LocalDateTime::new(0, 2_000_000_000, 0).is_none());
    let now = LocalDateTime::now();
    assert!(now.secs() > 0);
    assert!(matches!(ParamValue::DateTime(d).to_string().as_str(), "1970-01-01 00:00:00 +00:00"));
}

#[test]
fn numbers_read_back_from_their_text() {
    for v in [i64::MIN, -1, 0, 7, i64::MAX] {
        let text = ParamValue::I64(v).to_string();
        assert_eq!(i64::from_param_value(ParamValue::String(text)), Some(v));
    }
    for v in [0u8, 9, 255] {
        let text = ParamValue::U8(v).to_string();
        assert_eq!(u8::from_param_value(ParamValue::String(text)), Some(v));
    }
    let text = ParamValue::I16(-300).to_string();
    assert_eq!(i16::from_param_value(ParamValue::String(text)), Some(-300));
}

#[test]
fn integers_as_u64() {
    assert_eq!(ParamValue::I8(-1).as_u64(), Some(u64::MAX));
    assert_eq!(ParamValue::U16(9).as_u64(), Some(9));
    assert_eq!(ParamValue::Bool(true).as_u64(), None);
    assert_eq!(ParamValue::String("1".to_string()).as_u64(), None);
}

#[test]
fn date_times_from_seconds() {
    let d = datetime_local_from_seconds(86_400).unwrap();
    assert_eq!((d.secs(), d.nanos()), (86_400, 0));
    assert!(d.offset_secs() > -86_400 && d.offset_secs() < 86_400);
    assert!(datetime_local_from_seconds(i64::MAX).is_none());
}

#[test]
fn local_date_times_from_text() {
    let t = format_date_time_local_from_str("2024-01-02 03:04:05", "%Y-%m-%d %H:%M:%S").unwrap();
    assert_eq!(t.secs() + t.offset_secs() as i64, 1704164645);
    assert_eq!(t.nanos(), 0);
    match format_date_time_local_from_str("garbage", "%Y-%m-%d") {
        Err(DatabaseError::ConvertError(m)) => assert_eq!(m, "input contains invalid characters"),
        _ => panic!("garbage must not parse"),
    }
}

#[test]
fn local_points_from_offsets() {
    let t = local_from_offset(3600, 5, Some(3600)).unwrap();
    assert_eq!(t.secs(), 0);
    assert_eq!(t.nanos(), 5);
    assert_eq!(t.offset_secs(), 3600);
    let west = local_from_offset(0, 0, Some(-18_000)).unwrap();
    assert_eq!(west.secs(), 18_000);
    for bad in [local_from_offset(0, 0, None), local_from_offset(0, 0, Some(86_400)), local_from_offset(i64::MIN, 0, Some(1))] {
        match bad {
            Err(DatabaseError::ConvertError(m)) => assert_eq!(m, "Invalid datetime"),
            _ => panic!("expected a conversion error"),
        }
    }
}

#[test]
fn transactions_end_by_the_work_done() {
    let ok: Result<u64, DatabaseError> = Ok(3);
    let failed: Result<u64, DatabaseError> = Err(DatabaseError::ConvertError("bad".to_string()));
    assert_eq!(finish_action(&ok), TxAction::Commit);
    assert_eq!(finish_action(&failed), TxAction::Rollback);
    assert!(matches!(transaction_result(ok, Ok(())), Ok(3)));
    let commit_failed = transaction_result(Ok::<u64, DatabaseError>(3), Err(DatabaseError::ConvertError("commit".to_string())));
    assert!(matches!(commit_failed, Err(DatabaseError::ConvertError(m)) if m == "commit"));
    let rolled_back = transaction_result(failed, Ok(()));
    assert!(matches!(rolled_back, Err(DatabaseError::ConvertError(m)) if m == "bad"));
}

#[test]
fn representable_points_in_time() {
    assert!(LocalDateTime::new(8_210_266_876_799, 999_999_999, 0).is_some());
    assert!(LocalDateTime::new(8_210_266_876_800, 0, 0).is_none());
    assert!(LocalDateTime::new(-8_334_601_228_800, 0, 0).is_some());
    assert!(LocalDateTime::new(-8_334_601_228_801, 0, 0).is_none());
    assert!(LocalDateTime::new(59, 1_500_000_000, 0).is_some());
    assert!(LocalDateTime::new(58, 1_500_000_000, 0).is_none());
    assert!(LocalDateTime::new(-1, 1_000_000_000, 0).is_some());
    assert!(LocalDateTime::new(0, 2_000_000_000, 0).is_none());
    assert!(LocalDateTime::new(0, 0, 86_400).is_none());
}
