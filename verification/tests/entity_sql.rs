use huiyu_db_mapper::query::base_mapper::{assign_uuid_key, plan_insert, strip_hyphens, uuid_key_text, InsertPlan};
use huiyu_db_mapper::base::db_type::DbType;
use huiyu_db_mapper::base::entity::{ColumnInfo, ColumnType, Entity, KeyGenerateType};
use huiyu_db_mapper::base::param::ParamValue;
use huiyu_db_mapper::db::mysql::MysqlSqlGenerator;
use huiyu_db_mapper::db::sqlite::SqliteSqlGenerator;
use huiyu_db_mapper::query::query_wrapper::QueryWrapper;
use huiyu_db_mapper::sample::student::StudentEntity;
use huiyu_db_mapper::sample::user::UserEntity;
use huiyu_db_mapper::sql::sql_generator::{BaseSqlGenerator, QueryWrapperSqlGenerator};
use huiyu_db_mapper::sql::row::entity_from_row;
use huiyu_db_mapper::base::error::DatabaseError;

fn texts(params: &Vec<ParamValue>) -> Vec<String> {
    params.iter().map(|p| p.to_string()).collect()
}

fn student(id: Option<i64>, name: Option<&str>, age: Option<i64>) -> StudentEntity {
    StudentEntity { id, name: name.map(|n| n.to_string()), age }
}

#[test]
fn insert_names_only_present_columns() {
    let s = student(None, Some("张三"), Some(18));
    let (sql, params) = SqliteSqlGenerator.gen_insert_one_sql(&s);
    assert_eq!(sql, "insert into t_student(name,age) values (?,?)");
    assert_eq!(texts(&params), vec!["张三", "18"]);
    assert!(matches!(params[1], ParamValue::I64(18)));
}

#[test]
fn insert_of_several_rows() {
    let rows = vec![student(None, Some("a"), Some(1)), student(Some(5), None, None)];
    let (sql, params) = SqliteSqlGenerator.gen_insert_batch_sql(&rows);
    assert_eq!(sql, "insert into t_student(id,name,age) values (?,?,?),(?,?,?)");
    assert_eq!(texts(&params), vec!["null", "a", "1", "5", "null", "null"]);
    assert_eq!(sql.matches('?').count(), params.len());
}

#[test]
fn key_lookups_and_deletes() {
    let (sql, p) = SqliteSqlGenerator.gen_select_by_key_sql::<StudentEntity>(7);
    assert_eq!(sql, "select * from t_student where id = ?");
    assert!(matches!(p, ParamValue::I64(7)));
    let (sql, ps) = SqliteSqlGenerator.gen_select_by_keys_sql::<StudentEntity>(vec![1, 2]);
    assert_eq!(sql, "select * from t_student where id in (?,?)");
    assert_eq!(texts(&ps), vec!["1", "2"]);
    let (sql, p) = SqliteSqlGenerator.gen_delete_by_key_sql::<StudentEntity>(&7);
    assert_eq!(sql, "delete from t_student where id = ?");
    assert!(matches!(p, ParamValue::I64(7)));
    let (sql, ps) = SqliteSqlGenerator.gen_delete_by_keys_sql::<StudentEntity>(&vec![1, 2, 3]);
    assert_eq!(sql, "delete from t_student where id in (?,?,?)");
    assert_eq!(texts(&ps), vec!["1", "2", "3"]);
}

#[test]
fn update_by_key_skips_key_column() {
    let s = student(Some(9), Some("a"), None);
    let (sql, params) = SqliteSqlGenerator.gen_update_by_key_sql(&s, false);
    assert_eq!(sql, "update t_student set name = ? where id = ?");
    assert_eq!(texts(&params), vec!["a", "9"]);
    let (sql, params) = SqliteSqlGenerator.gen_update_by_key_sql(&s, true);
    assert_eq!(sql, "update t_student set name = ?,age = ? where id = ?");
    assert_eq!(texts(&params), vec!["a", "null", "9"]);
}

#[test]
fn update_and_delete_by_conditions() {
    let s = student(Some(9), Some("a"), None);
    let w = QueryWrapper::<StudentEntity>::new().eq("id", 3i64);
    let (sql, params) = SqliteSqlGenerator.gen_update_sql(&s, &w, false);
    assert_eq!(sql, "update t_student set id = ?,name = ? where id = ?");
    assert_eq!(texts(&params), vec!["9", "a", "3"]);
    let w = QueryWrapper::<StudentEntity>::new().eq("age", 3i64).or_wrapper(|w1: QueryWrapper<'static, StudentEntity>| w1.null("name"));
    let (sql, params) = DbType::Postgres.gen_delete_sql(&w);
    assert_eq!(sql, "delete from t_student where age = ?  AND  (name is null)");
    assert_eq!(texts(&params), vec!["3"]);
}

#[test]
fn mysql_insert_and_read_back_key() {
    let s = student(None, Some("b"), None);
    let (sql, params) = MysqlSqlGenerator.gen_insert_and_get_id_sql(&s);
    assert_eq!(sql, "insert into t_student(name) values (?); SELECT LAST_INSERT_ID();");
    assert_eq!(texts(&params), vec!["b"]);
    let (sql2, _) = DbType::Mysql.gen_insert_and_get_id_sql(&s);
    assert_eq!(sql2, sql);
}

#[test]
fn student_entity_values() {
    let mut s = <StudentEntity as Entity>::new();
    assert!(s.id.is_none());
    s.set_value_by_column_name("age", ParamValue::String("21".to_string()));
    s.set_value_by_field_name("name", ParamValue::I32(5));
    s.set_value_by_column_name("unknown", ParamValue::I64(1));
    assert_eq!(s.age, Some(21));
    assert_eq!(s.name, Some("5".to_string()));
    assert_eq!(s.key(), 0);
    assert!(matches!(s.get_value_by_column_name("age"), ParamValue::I64(21)));
    assert!(matches!(s.get_value_by_column_name("id"), ParamValue::Null));
    assert_eq!(StudentEntity::table_name(), "t_student");
    assert_eq!(StudentEntity::column_names(), vec!["id", "name", "age"]);
    let infos = StudentEntity::get_column_infos();
    assert_eq!(infos.len(), 3);
    assert!(infos[0].is_primary_key && infos[0].is_auto_increment);
    assert_eq!(infos[2].column_type, ColumnType::I64);
}

#[test]
fn user_entity_values() {
    let mut u = <UserEntity as Entity>::new();
    u.set_value_by_column_name("id", ParamValue::I64(4));
    u.set_value_by_field_name("SEX", ParamValue::U8(1));
    u.set_value_by_field_name("sex", ParamValue::U8(2));
    assert_eq!(u.id, Some(4));
    assert_eq!(u.sex, Some(1));
    assert_eq!(u.key(), 4);
    assert!(matches!(u.get_value_by_field_name("ID"), ParamValue::I64(4)));
    assert!(matches!(u.get_value_by_field_name("id"), ParamValue::Null));
    assert_eq!(UserEntity::column_names(), vec!["ID", "NAME", "AGE", "SEX"]);
    assert_eq!(UserEntity::field_names(), vec!["id", "name", "age", "sex"]);
    let (sql, params) = SqliteSqlGenerator.gen_insert_one_sql(&u);
    assert_eq!(sql, "insert into t_user() values ()");
    assert!(params.is_empty());
}

#[test]
fn column_info_and_key_generation() {
    let c = ColumnInfo::new("a", "b", ColumnType::DateTime, true, false, false, true, false, KeyGenerateType::UUID);
    assert_eq!(c.field_name, "a");
    assert_eq!(c.column_name, "b");
    assert!(c.fill_on_update && !c.fill_on_insert && c.is_nullable);
    assert_eq!(c.key_generate_type, KeyGenerateType::UUID);
    assert_eq!(KeyGenerateType::from("UUID"), KeyGenerateType::UUID);
    assert_eq!(KeyGenerateType::from("Auto_Increment"), KeyGenerateType::AutoIncrement);
    assert_eq!(KeyGenerateType::from("use_generated_keys".to_string()), KeyGenerateType::UseGeneratedKeys);
    assert_eq!(KeyGenerateType::from(Some("SEQUENCE".to_string())), KeyGenerateType::Sequence);
    assert_eq!(KeyGenerateType::from(None::<String>), KeyGenerateType::NotGenerated);
    assert_eq!(KeyGenerateType::from("none"), KeyGenerateType::NotGenerated);
    assert_eq!(KeyGenerateType::from("other"), KeyGenerateType::NotGenerated);
    assert_eq!(KeyGenerateType::from_lowercase("UUID"), KeyGenerateType::NotGenerated);
}

#[test]
fn insert_plans_and_generated_keys() {
    assert!(matches!(plan_insert::<StudentEntity>(), InsertPlan::InsertAndReadKey));
    assert!(matches!(plan_insert::<UserEntity>(), InsertPlan::InsertWithoutKeyInfo));
    assert_eq!(strip_hyphens("a-b--c-"), "abc");
    let k = uuid_key_text();
    assert_eq!(k.len(), 32);
    assert!(k.chars().all(|c| c.is_ascii_hexdigit() && !c.is_ascii_uppercase()));
    assert_ne!(uuid_key_text(), k);
    let digits: Vec<char> = k.chars().collect();
    assert_eq!(digits[12], '4');
    assert!(matches!(digits[16], '8' | '9' | 'a' | 'b'));
    let mut s = student(None, None, None);
    let key = assign_uuid_key(&mut s, "name");
    assert_eq!(s.name, Some(key));
}

#[test]
fn set_values_read_back_and_new_rows_are_empty() {
    let mut s = <StudentEntity as Entity>::new();
    assert!(matches!(s.get_value_by_column_name("id"), ParamValue::Null));
    assert!(matches!(s.get_value_by_field_name("name"), ParamValue::Null));
    s.set_value_by_column_name("name", ParamValue::String("x".to_string()));
    s.set_value_by_column_name("id", ParamValue::I64(3));
    assert_eq!(s.get_value_by_column_name("name").to_string(), "x");
    assert!(matches!(s.get_value_by_column_name("id"), ParamValue::I64(3)));
    assert!(s.has_key());
    let mut u = <UserEntity as Entity>::new();
    assert!(!u.has_key());
    u.set_value_by_column_name("age", ParamValue::I32(30));
    assert!(matches!(u.get_value_by_column_name("age"), ParamValue::I32(30)));
    assert!(matches!(u.get_value_by_column_name("sex"), ParamValue::Null));
    assert!(u.has_key() == false);
}

#[test]
fn plain_key_rows_are_inserted() {
    let (sql, params) = SqliteSqlGenerator.gen_insert_one_sql(&student(Some(4), Some("k"), None));
    assert_eq!(sql, "insert into t_student(id,name) values (?,?)");
    assert_eq!(texts(&params), vec!["4", "k"]);
}

#[test]
fn rows_are_read_into_entities() {
    let cells = vec![
        ("age".to_string(), ParamValue::I64(12)),
        ("id".to_string(), ParamValue::I64(7)),
        ("name".to_string(), ParamValue::String("Ann".to_string())),
        ("name".to_string(), ParamValue::String("later".to_string())),
        ("extra".to_string(), ParamValue::I64(1)),
    ];
    let s: StudentEntity = entity_from_row(&cells).ok().unwrap();
    assert_eq!(s.id, Some(7));
    assert_eq!(s.name, Some("Ann".to_string()));
    assert_eq!(s.age, Some(12));
    let short = vec![("id".to_string(), ParamValue::I64(7)), ("age".to_string(), ParamValue::Null)];
    match entity_from_row::<StudentEntity>(&short) {
        Err(DatabaseError::RowConvertError(m)) => assert_eq!(m, "Column 'name' not found in row"),
        _ => panic!("expected a missing column"),
    }
}
