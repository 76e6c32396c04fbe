use huiyu_db_mapper::base::config::DbConfig;
use huiyu_db_mapper::base::db_type::DbType;
use huiyu_db_mapper::base::error::DatabaseError;
use huiyu_db_mapper::base::server_config;
use huiyu_db_mapper::db::dameng::DamengDbRegister;
use huiyu_db_mapper::db::sqlite::SqliteDbRegister;
use huiyu_db_mapper::pool::datasource::{get_datasource_name, DatasourceTypeRegistry};
use huiyu_db_mapper::pool::db_manager::{check_server_config, find_instance, register_with, DatabaseRegistry, DbManager, DbRegister};

#[test]
fn registry_keeps_first_as_default() {
    let mut r: DatabaseRegistry<u32> = DatabaseRegistry::new();
    assert_eq!(r.instance_count(), 0);
    assert!(r.get_default().is_none());
    r.insert("a".to_string(), 1);
    r.insert("b".to_string(), 2);
    assert!(r.contains("b"));
    assert!(!r.contains("c"));
    assert_eq!(r.get_instance("b"), Some(&2));
    assert_eq!(r.get_instance("c"), None);
    assert_eq!(r.get_default(), Some(&1));
    assert_eq!(r.list_instances(), vec!["a".to_string(), "b".to_string()]);
    assert_eq!(r.instance_count(), 2);
}

#[test]
fn removing_the_default_promotes_the_next() {
    let mut r: DatabaseRegistry<u32> = DatabaseRegistry::new();
    r.insert("a".to_string(), 1);
    r.insert("b".to_string(), 2);
    r.insert("c".to_string(), 3);
    assert_eq!(r.remove("x"), None);
    assert_eq!(r.remove("b"), Some(2));
    assert_eq!(r.get_default(), Some(&1));
    assert_eq!(r.remove("a"), Some(1));
    assert_eq!(r.get_default(), Some(&3));
    assert_eq!(r.get_instance("a"), None);
    assert_eq!(r.remove("c"), Some(3));
    assert_eq!(r.get_default(), None);
    assert_eq!(r.instance_count(), 0);
}

#[test]
fn register_refuses_a_taken_name() {
    let mut r: DatabaseRegistry<u32> = DatabaseRegistry::new();
    let mut types = DatasourceTypeRegistry::new();
    let config = DbConfig::new(DbType::Sqlite, "main".to_string(), None, None, None);
    assert!(register_with(&mut r, &mut types, &config, |_c: &DbConfig| Ok(42u32)).is_ok());
    assert_eq!(r.get_instance("main"), Some(&42));
    assert_eq!(types.get_datasource_type_by_name("main"), Some(DbType::Sqlite));
    match register_with(&mut r, &mut types, &config, |_c: &DbConfig| Ok(7u32)) {
        Err(DatabaseError::InstanceAlreadyExistsError(name)) => assert_eq!(name, "main"),
        _ => panic!("a taken name must be refused"),
    }
    assert_eq!(r.get_instance("main"), Some(&42));
}

#[test]
fn register_passes_on_factory_errors() {
    let mut r: DatabaseRegistry<u32> = DatabaseRegistry::new();
    let mut types = DatasourceTypeRegistry::new();
    let config = DbConfig::new(DbType::Mysql, "m".to_string(), Some("u".to_string()), None, None);
    let res = register_with(&mut r, &mut types, &config, |_c: &DbConfig| {
        Err(DatabaseError::PoolCreateError("down".to_string()))
    });
    match res {
        Err(DatabaseError::PoolCreateError(m)) => assert_eq!(m, "down"),
        _ => panic!("the factory's error must come back"),
    }
    assert!(!r.contains("m"));
    assert_eq!(types.get_datasource_type_by_name("m"), Some(DbType::Mysql));
}

#[test]
fn datasource_types_by_name() {
    let mut types = DatasourceTypeRegistry::new();
    assert_eq!(types.get_datasource_type_by_name("a"), None);
    types.set_datasource_type("a".to_string(), DbType::Mysql);
    types.set_datasource_type("default".to_string(), DbType::Sqlite);
    types.set_datasource_type("a".to_string(), DbType::Oracle);
    assert_eq!(types.get_datasource_type_by_name("a"), Some(DbType::Oracle));
    assert_eq!(types.get_datasource_type(None), Some(DbType::Sqlite));
    assert_eq!(types.get_datasource_type(Some("a".to_string())), Some(DbType::Oracle));
    assert_eq!(types.get_datasource_type(Some("b".to_string())), None);
}

#[test]
fn datasource_name_defaults() {
    assert_eq!(get_datasource_name(None), "default");
    assert_eq!(get_datasource_name(Some("x".to_string())), "x");
}

#[test]
fn manager_getters() {
    let m = DbManager::new(5u8, "n".to_string(), DbType::Postgres);
    assert_eq!(*m.get_pool(), 5);
    assert_eq!(m.get_name(), "n");
    assert_eq!(m.get_db_type(), DbType::Postgres);
}

fn server(database: Option<&str>, username: Option<&str>, password: Option<&str>, host: Option<&str>, port: Option<u32>) -> server_config::DbConfig {
    server_config::DbConfig::new(
        DbType::Mysql,
        host.map(|s| s.to_string()),
        port,
        database.map(|s| s.to_string()),
        username.map(|s| s.to_string()),
        password.map(|s| s.to_string()),
        None,
        "default".to_string(),
    )
}

fn missing(r: Result<(), DatabaseError>) -> String {
    match r {
        Err(DatabaseError::ConfigNotFoundError(m)) => m,
        _ => "ok".to_string(),
    }
}

#[test]
fn server_settings_are_checked_in_order() {
    assert_eq!(missing(check_server_config(&server(None, None, None, None, None))), "Database is missing");
    assert_eq!(missing(check_server_config(&server(Some("d"), None, None, None, None))), "Username is missing");
    assert_eq!(missing(check_server_config(&server(Some("d"), Some("u"), None, None, None))), "Password is missing");
    assert_eq!(missing(check_server_config(&server(Some("d"), Some("u"), Some("p"), None, None))), "Host is missing");
    assert_eq!(missing(check_server_config(&server(Some("d"), Some("u"), Some("p"), Some("h"), None))), "Port is missing");
    assert!(check_server_config(&server(Some("d"), Some("u"), Some("p"), Some("h"), Some(1))).is_ok());
    assert_eq!(missing(DamengDbRegister.check_config(&server(Some("d"), None, None, None, None))), "Username is missing");
}

#[test]
fn sqlite_needs_only_its_file() {
    assert_eq!(missing(SqliteDbRegister.check_config(&server(None, None, None, None, None))), "Database URL is missing");
    assert!(SqliteDbRegister.check_config(&server(Some("a.db"), None, None, None, None)).is_ok());
}

#[test]
fn configs_keep_their_fields() {
    let c = DbConfig::new_with_all_opts(DbType::Oracle, "o".to_string(), Some("url".to_string()), None, Some("p".to_string()), Some(5), Some(1), Some(30));
    assert_eq!(c.name, "o");
    assert_eq!(c.max_size, Some(5));
    assert_eq!(c.min_size, Some(1));
    assert_eq!(c.timeout, Some(30));
    let d = DbConfig::new(DbType::Oracle, "o".to_string(), None, None, None);
    assert_eq!(d.max_size, None);
    let s = server(Some("d"), None, None, Some("h"), Some(3306));
    assert_eq!(s.port, Some(3306));
    assert_eq!(s.host, Some("h".to_string()));
}

#[test]
fn every_instance_in_order() {
    let mut r: DatabaseRegistry<u32> = DatabaseRegistry::new();
    r.insert("a".to_string(), 1);
    r.insert("b".to_string(), 5);
    assert_eq!(r.with_all_instances(|v: &u32| v * 10), vec![10, 50]);
}

#[test]
fn missing_instances_are_errors() {
    let mut r: DatabaseRegistry<u32> = DatabaseRegistry::new();
    r.insert("a".to_string(), 1);
    assert_eq!(*find_instance(Some(&r), "a").unwrap(), 1);
    match find_instance(Some(&r), "b") {
        Err(DatabaseError::NotFoundError(m)) => assert_eq!(m, "Database instance 'b' not found"),
        _ => panic!("b is not registered"),
    }
    match find_instance::<u32>(None, "a") {
        Err(DatabaseError::NotFoundError(m)) => assert_eq!(m, "Database registry not initialized"),
        _ => panic!("no registry"),
    }
}
