use huiyu_db_mapper::base::db_type::DbType;
use huiyu_db_mapper::base::page::Page;
use huiyu_db_mapper::base::param::ParamValue;
use huiyu_db_mapper::db::mysql::MysqlSqlGenerator;
use huiyu_db_mapper::db::oracle::OracleSqlGenerator;
use huiyu_db_mapper::db::postgres::PostgresSqlGenerator;
use huiyu_db_mapper::db::sqlite::SqliteSqlGenerator;
use huiyu_db_mapper::query::query::QueryRelation;
use huiyu_db_mapper::query::query_wrapper::QueryWrapper;
use huiyu_db_mapper::sample::student::StudentEntity;
use huiyu_db_mapper::sql::sql_generator::{PageSqlGenerator, QueryWrapperSqlGenerator};

fn texts(params: &Vec<ParamValue>) -> Vec<String> {
    params.iter().map(|p| p.to_string()).collect()
}

fn sample_wrapper() -> QueryWrapper<'static, StudentEntity> {
    QueryWrapper::<StudentEntity>::new()
        .ge("age", ParamValue::I16(18))
        .null("sex")
        .like_left("name", ParamValue::String("zhangsan".to_string()))
        .not_null("name")
}

const SAMPLE_QUERY: &str =
    "select id,name,age from t_student where age >= ?  AND  sex is null  AND  name like ?  AND  name is not null";

#[test]
fn readme_query_with_or_group() {
    let w = QueryWrapper::<StudentEntity>::new()
        .eq("id", 1i32)
        .ne("role_name", "role_001")
        .gt("status", 0i32)
        .lt("status", 1i32)
        .order_by("status", false)
        .or_wrapper(|w1: QueryWrapper<'static, StudentEntity>| w1.eq("id", 1i32).eq("role_name", 1i32));
    let (sql, params) = MysqlSqlGenerator.gen_query_sql(&w);
    assert_eq!(
        sql,
        "select id,name,age from t_student where id = ?  AND  role_name != ?  AND  status > ?  AND  status < ?  AND  (id = ?  OR  role_name = ?) order by status DESC"
    );
    assert_eq!(texts(&params), vec!["1", "role_001", "0", "1", "1", "1"]);
    assert!(matches!(params[1], ParamValue::String(_)));
    assert!(matches!(params[0], ParamValue::I32(1)));
}

#[test]
fn sample_query_text_and_params() {
    let w = sample_wrapper();
    let (sql, params) = DbType::Sqlite.gen_query_sql(&w);
    assert_eq!(sql, SAMPLE_QUERY);
    assert!(matches!(params[0], ParamValue::I16(18)));
    assert_eq!(texts(&params), vec!["18", "%zhangsan"]);
}

#[test]
fn sqlite_page_of_sample_query() {
    let w = sample_wrapper();
    let (page_sql, total_sql, params) = DbType::Sqlite.gen_page_sql(&Page::new(1, 10), &w);
    assert_eq!(page_sql, format!("select * from({}) limit ? offset ?", SAMPLE_QUERY));
    assert_eq!(total_sql, format!("select count(*) from ({}) t", SAMPLE_QUERY));
    assert_eq!(texts(&params), vec!["18", "%zhangsan", "10", "0"]);
    assert!(matches!(params[2], ParamValue::U64(10)));
}

#[test]
fn mysql_page_of_sample_query() {
    let w = sample_wrapper();
    let (page_sql, total_sql, params) = DbType::Mysql.gen_page_sql(&Page::new(1, 10), &w);
    assert_eq!(page_sql, format!("select * from({}) limit ?, ?", SAMPLE_QUERY));
    assert_eq!(total_sql, format!("select count(*) from ({}) t", SAMPLE_QUERY));
    assert_eq!(texts(&params), vec!["18", "%zhangsan", "0", "10"]);
}

#[test]
fn oracle_page_of_sample_query() {
    let w = sample_wrapper();
    let (page_sql, _, params) = OracleSqlGenerator.gen_page_sql(&Page::new(2, 10), &w);
    assert_eq!(
        page_sql,
        format!("SELECT * FROM ( SELECT t.*, ROWNUM rnum  FROM (  {}  ) t  WHERE ROWNUM <= ? ) WHERE rnum > ? ", SAMPLE_QUERY)
    );
    assert_eq!(texts(&params), vec!["18", "%zhangsan", "20", "10"]);
}

#[test]
fn postgres_page_of_sample_query() {
    let w = sample_wrapper();
    let (page_sql, _, params) = PostgresSqlGenerator.gen_page_sql(&Page::new(3, 5), &w);
    assert_eq!(page_sql, format!("select * from({}) limit ? offset ?", SAMPLE_QUERY));
    assert_eq!(texts(&params), vec!["18", "%zhangsan", "5", "10"]);
}

#[test]
fn page_query_arguments_per_dialect() {
    assert_eq!(MysqlSqlGenerator.gen_page_query_sql("q", 3, 7), ("select * from(q) limit ?, ?".to_string(), 14, 7));
    assert_eq!(SqliteSqlGenerator.gen_page_query_sql("q", 3, 7), ("select * from(q) limit ? offset ?".to_string(), 7, 14));
    assert_eq!(OracleSqlGenerator.gen_page_query_sql("q", 3, 7).1, 21);
    assert_eq!(OracleSqlGenerator.gen_page_query_sql("q", 3, 7).2, 14);
    assert_eq!(SqliteSqlGenerator.gen_page_total_sql("q"), "select count(*) from (q) t");
}

#[test]
fn limit_takes_first_page() {
    let w = QueryWrapper::<StudentEntity>::new().eq("age", 3i64).limit(5);
    let (sql, params) = MysqlSqlGenerator.gen_query_sql(&w);
    assert_eq!(sql, "select * from(select id,name,age from t_student where age = ?) limit ?, ?");
    assert_eq!(texts(&params), vec!["3", "0", "5"]);
}

#[test]
fn columns_grouping_and_ordering() {
    let w = QueryWrapper::<StudentEntity>::new()
        .select(vec!["id", "name"])
        .group_by(vec!["name"])
        .order_by_asc("id")
        .order_by_desc("name");
    let (sql, params) = SqliteSqlGenerator.gen_query_sql(&w);
    assert_eq!(sql, "select id,name from t_student group by name order by id ASC,name DESC");
    assert!(params.is_empty());
    let excluded = QueryWrapper::<StudentEntity>::new().select_excludes(vec!["age"]);
    assert_eq!(SqliteSqlGenerator.gen_query_column_sql(&excluded), "id,name");
}

#[test]
fn condition_fragments_and_patterns() {
    let w = QueryWrapper::<StudentEntity>::new()
        .in_values("id", vec![1i64, 2, 3])
        .not_in_values("id", vec![4i64, 5])
        .not_in_sql("id", "select 1")
        .in_sql("id", "select id from t")
        .between("age", 1i64, 9i64)
        .like("name", "ab")
        .like_right("name", "ab")
        .not_like("name", "ab")
        .not_like_left("name", "ab")
        .not_like_right("name", "ab");
    let (sql, params) = MysqlSqlGenerator.gen_where_sql(&w).unwrap();
    assert_eq!(
        sql,
        "id in (?,?,?)  AND  id not in (?,?)  AND  id not in (select 1)  AND  id in (select id from t)  AND  age between ? and ?  AND  name like ?  AND  name like ?  AND  name not like ?  AND  name not like ?  AND  name not like ?"
    );
    assert_eq!(texts(&params), vec!["1", "2", "3", "4", "5", "1", "9", "%ab%", "ab%", "%ab%", "%ab", "ab%"]);
}

#[test]
fn raw_sql_conditions() {
    let w = QueryWrapper::<StudentEntity>::new()
        .exists_sql("select 1 from t where t.id = ?", vec![7i64])
        .not_exists_sql("select 1 from u", Vec::<i64>::new())
        .apply_sql("age > ?", vec![3i64]);
    let (sql, params) = SqliteSqlGenerator.gen_where_sql(&w).unwrap();
    assert_eq!(sql, "exists (select 1 from t where t.id = ?)  AND  not exists (select 1 from u)  AND  age > ?");
    assert_eq!(texts(&params), vec!["7", "3"]);
}

#[test]
fn nested_groups() {
    let w = QueryWrapper::<StudentEntity>::new().eq("a", 1i32).and_wrapper(|w1: QueryWrapper<'static, StudentEntity>| {
        w1.eq("b", 2i32).or_wrapper(|w2: QueryWrapper<'static, StudentEntity>| w2.eq("c", 3i32).eq("d", 4i32))
    });
    let (sql, params) = SqliteSqlGenerator.gen_where_sql(&w).unwrap();
    assert_eq!(sql, "a = ?  AND  (b = ?  AND  (c = ?  OR  d = ?))");
    assert_eq!(texts(&params), vec!["1", "2", "3", "4"]);
}

#[test]
fn no_condition_gives_no_where() {
    let w = QueryWrapper::<StudentEntity>::new().eq_when(false, "a", 1i32).null_when(false, "b");
    assert!(SqliteSqlGenerator.gen_where_sql(&w).is_none());
    let (sql, params) = SqliteSqlGenerator.gen_query_sql(&w);
    assert_eq!(sql, "select id,name,age from t_student");
    assert!(params.is_empty());
}

#[test]
fn conditional_builders_apply_when_true() {
    let w = QueryWrapper::<StudentEntity>::new()
        .eq_when(true, "a", 1i32)
        .like_left_when(true, "n", "x")
        .in_values_when(true, "c", vec![1i32])
        .order_by_when(true, "a", true)
        .or_wrapper_when(false, |w1: QueryWrapper<'static, StudentEntity>| w1.eq("z", 1i32));
    let (sql, params) = SqliteSqlGenerator.gen_query_sql(&w);
    assert_eq!(sql, "select id,name,age from t_student where a = ?  AND  n like ?  AND  c in (?) order by a ASC");
    assert_eq!(texts(&params), vec!["1", "%x", "1"]);
}

#[test]
fn clear_forgets_everything() {
    let w = QueryWrapper::<StudentEntity>::new().eq("a", 1i32).limit(3).select(vec!["id"]).clear();
    let (sql, params) = SqliteSqlGenerator.gen_query_sql(&w);
    assert_eq!(sql, "select id,name,age from t_student");
    assert!(params.is_empty());
    let kept = QueryWrapper::<StudentEntity>::new().eq("a", 1i32).clear_when(false);
    assert!(SqliteSqlGenerator.gen_where_sql(&kept).is_some());
}

#[test]
fn relation_keywords() {
    assert_eq!(QueryRelation::And.to_sql(), " AND ");
    assert_eq!(QueryRelation::Or.to_sql(), " OR ");
}

#[test]
fn every_value_has_one_placeholder() {
    let w = QueryWrapper::<StudentEntity>::new()
        .eq("a", 1i32)
        .between("b", 1i32, 2i32)
        .in_values("c", vec![1i32, 2, 3, 4])
        .null("d")
        .or_wrapper(|w1: QueryWrapper<'static, StudentEntity>| w1.like("e", "x").not_in_values("f", vec![5i32, 6]));
    let (sql, params) = SqliteSqlGenerator.gen_where_sql(&w).unwrap();
    assert_eq!(sql.matches('?').count(), params.len());
    assert_eq!(params.len(), 10);
}
