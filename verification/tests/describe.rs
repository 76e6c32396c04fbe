use huiyu_db_mapper::base::describe::{
    column_constants, column_type_of, entity_description, field_decl, mapping_description, parse_fields, table_info, AttrKind,
    AttrValue, FieldAttr, FieldDecl, FieldSource,
};
use huiyu_db_mapper::base::entity::{ColumnType, Entity, KeyGenerateType};
use huiyu_db_mapper::sample::student::StudentEntity;

fn arg_str(key: &str, value: &str) -> (String, AttrValue) {
    (key.to_string(), AttrValue::Str(value.to_string()))
}

fn arg_bool(key: &str, value: bool) -> (String, AttrValue) {
    (key.to_string(), AttrValue::Bool(value))
}

fn attr(kind: AttrKind, args: Vec<(String, AttrValue)>) -> FieldAttr {
    FieldAttr { kind, args }
}

fn option_field(name: &str, inner: &str, attrs: Vec<FieldAttr>) -> FieldDecl {
    field_decl(name, &format!("Option<{}>", inner), true, inner, false, &attrs)
}

fn student_fields() -> Vec<FieldDecl> {
    vec![
        option_field(
            "id",
            "i64",
            vec![attr(AttrKind::Id, vec![arg_str("column", "id"), arg_bool("auto_increment", true)])],
        ),
        option_field("name", "String", vec![attr(AttrKind::Field, vec![arg_str("column", "name")])]),
        option_field("age", "i64", vec![attr(AttrKind::Field, vec![arg_str("column", "age")])]),
    ]
}

#[test]
fn column_types_follow_the_field_type() {
    assert_eq!(column_type_of("i8", false), ColumnType::I8);
    assert_eq!(column_type_of("u64", false), ColumnType::U64);
    assert_eq!(column_type_of("usize", false), ColumnType::USize);
    assert_eq!(column_type_of("f64", false), ColumnType::F64);
    assert_eq!(column_type_of("bool", false), ColumnType::Bool);
    assert_eq!(column_type_of("String", false), ColumnType::String);
    assert_eq!(column_type_of("DateTime", false), ColumnType::DateTime);
    assert_eq!(column_type_of("Vec", true), ColumnType::Blob);
    assert_eq!(column_type_of("Vec", false), ColumnType::Clob);
    assert_eq!(column_type_of("HashMap", false), ColumnType::Null);
}

#[test]
fn field_defaults_and_attributes() {
    let plain = option_field("created_at", "DateTime", vec![]);
    assert_eq!(plain.column_name, "created_at");
    assert_eq!(plain.sql_type, "varchar");
    assert!(plain.is_nullable && !plain.is_id && !plain.is_auto_increment);
    assert_eq!(plain.key_generate_type, None);
    assert_eq!(plain.column_type, ColumnType::DateTime);

    let id = option_field(
        "uid",
        "String",
        vec![attr(AttrKind::Id, vec![arg_str("column", "user_id"), arg_str("key_generate_type", "uuid")])],
    );
    assert!(id.is_id && !id.is_nullable);
    assert_eq!(id.column_name, "user_id");
    assert_eq!(id.key_generate_type, Some("uuid".to_string()));

    let filled = option_field(
        "updated",
        "DateTime",
        vec![attr(
            AttrKind::Field,
            vec![arg_bool("nullable", false), arg_bool("fill_on_update", true), arg_bool("fill_on_insert", true), arg_str("type", "timestamp")],
        )],
    );
    assert!(!filled.is_nullable && filled.fill_on_update && filled.fill_on_insert);
    assert_eq!(filled.sql_type, "timestamp");
}

#[test]
fn reading_stops_at_a_bad_argument() {
    let f = option_field(
        "age",
        "i64",
        vec![attr(
            AttrKind::Field,
            vec![arg_str("column", "years"), arg_str("nullable", "no"), arg_str("type", "int")],
        )],
    );
    assert_eq!(f.column_name, "years");
    assert!(f.is_nullable);
    assert_eq!(f.sql_type, "varchar");
    let g = option_field("n", "i32", vec![attr(AttrKind::Field, vec![arg_bool("auto_increment", true), arg_str("column", "x")])]);
    assert_eq!(g.column_name, "n");
    assert!(!g.is_auto_increment);
    let h = option_field("n", "i32", vec![attr(AttrKind::Other, vec![arg_str("column", "x")])]);
    assert_eq!(h.column_name, "n");
    let passed_over = option_field(
        "n",
        "i32",
        vec![attr(AttrKind::Field, vec![("flag".to_string(), AttrValue::Absent), arg_str("column", "x")])],
    );
    assert_eq!(passed_over.column_name, "x");
    let key_alone = option_field(
        "n",
        "i32",
        vec![attr(AttrKind::Field, vec![("column".to_string(), AttrValue::Absent), arg_str("type", "int")])],
    );
    assert_eq!(key_alone.column_name, "n");
    assert_eq!(key_alone.sql_type, "varchar");
    let number = option_field(
        "n",
        "i32",
        vec![attr(AttrKind::Id, vec![("column".to_string(), AttrValue::OtherLit), arg_bool("auto_increment", true)])],
    );
    assert!(number.is_id && !number.is_auto_increment);
    assert_eq!(number.column_name, "n");
}

#[test]
fn entity_with_default_table_name() {
    let d = entity_description("StudentEntity", None, &student_fields()).ok().unwrap();
    assert_eq!(d.table_name, "t_studententity");
    assert_eq!(d.key_field, "id");
    assert_eq!(d.key_column, "id");
    assert!(d.key_info.is_primary_key && d.key_info.is_auto_increment);
    assert_eq!(d.field_names, vec!["id", "name", "age"]);
    assert_eq!(d.column_names, vec!["id", "name", "age"]);
    assert_eq!(d.columns.len(), 3);
    assert_eq!(d.columns[1].column_type, ColumnType::String);
    assert!(d.columns[1].is_nullable && !d.columns[1].is_primary_key);
    assert_eq!(d.columns[0].key_generate_type, KeyGenerateType::NotGenerated);
}

#[test]
fn entity_with_named_table_and_key_generation() {
    let fields = vec![
        option_field("name", "String", vec![]),
        option_field("code", "String", vec![attr(AttrKind::Id, vec![arg_str("key_generate_type", "UUID")])]),
        option_field("other", "String", vec![attr(AttrKind::Id, vec![])]),
    ];
    let d = entity_description("User", Some("t_user".to_string()), &fields).ok().unwrap();
    assert_eq!(d.table_name, "t_user");
    assert_eq!(d.key_field, "code");
    assert_eq!(d.key_info.key_generate_type, KeyGenerateType::UUID);
}

#[test]
fn entity_errors() {
    let fields = vec![
        field_decl("id", "i64", false, "i64", false, &vec![attr(AttrKind::Id, vec![])]),
        option_field("name", "String", vec![]),
        field_decl("data", "Vec<u8>", false, "Vec", true, &vec![]),
    ];
    let errs = entity_description("Bad", None, &fields).err().unwrap();
    assert_eq!(
        errs,
        vec![
            "Field `id` must be of type `Option<T>`, found `i64`".to_string(),
            "Field `data` must be of type `Option<T>`, found `Vec<u8>`".to_string(),
        ]
    );
    let no_key = vec![option_field("name", "String", vec![])];
    let errs = entity_description("NoKey", None, &no_key).err().unwrap();
    assert_eq!(errs, vec!["One field must be marked with #[id]".to_string()]);
}

#[test]
fn mapping_needs_only_options() {
    let m = mapping_description(&student_fields()).ok().unwrap();
    assert_eq!(m.field_names, vec!["id", "name", "age"]);
    let bad = vec![field_decl("n", "u32", false, "u32", false, &vec![])];
    let errs = mapping_description(&bad).err().unwrap();
    assert_eq!(errs, vec!["Field `n` must be of type `Option<T>`, found `u32`".to_string()]);
    let m = mapping_description(&no_columns()).ok().unwrap();
    assert!(m.column_names.is_empty());
}

fn no_columns() -> Vec<FieldDecl> {
    Vec::new()
}

#[test]
fn table_attributes() {
    let (name, sensitive) = table_info(&vec![vec![arg_str("name", "t_student"), arg_bool("case_sensitive", true)]]);
    assert_eq!(name, Some("t_student".to_string()));
    assert!(sensitive);
    let (name, sensitive) = table_info(&vec![vec![arg_bool("name", true), arg_str("case_sensitive", "yes"), arg_str("name", "late")]]);
    assert_eq!(name, None);
    assert!(!sensitive);
    let (name, _) = table_info(&vec![vec![arg_str("name", "a")], vec![arg_str("name", "b")]]);
    assert_eq!(name, Some("b".to_string()));
    let (name, sensitive) = table_info(&vec![vec![("name".to_string(), AttrValue::OtherLit), arg_bool("case_sensitive", true)]]);
    assert_eq!(name, None);
    assert!(sensitive);
    let (name, sensitive) = table_info(&vec![vec![("name".to_string(), AttrValue::Absent), arg_bool("case_sensitive", true)]]);
    assert_eq!(name, None);
    assert!(!sensitive);
}

#[test]
fn fields_are_read_in_order() {
    let sources = vec![
        FieldSource {
            field_name: "id".to_string(),
            type_text: "Option<u64>".to_string(),
            is_option: true,
            inner_type_ident: "u64".to_string(),
            inner_vec_of_u8: false,
            attrs: vec![attr(AttrKind::Id, vec![])],
        },
        FieldSource {
            field_name: "photo".to_string(),
            type_text: "Option<Vec<u8>>".to_string(),
            is_option: true,
            inner_type_ident: "Vec".to_string(),
            inner_vec_of_u8: true,
            attrs: vec![attr(AttrKind::Field, vec![arg_str("column", "img")])],
        },
    ];
    let decls = parse_fields(&sources);
    assert_eq!(decls.len(), 2);
    assert!(decls[0].is_id && !decls[0].is_nullable);
    assert_eq!(decls[0].column_type, ColumnType::U64);
    assert_eq!(decls[1].column_name, "img");
    assert_eq!(decls[1].column_type, ColumnType::Blob);
    assert_eq!(decls[1].type_text, "Option<Vec<u8>>");
}

#[test]
fn student_declaration_matches_the_sample_entity() {
    let d = entity_description("StudentEntity", Some("t_student".to_string()), &student_fields()).ok().unwrap();
    assert_eq!(d.table_name, StudentEntity::table_name());
    assert_eq!(d.key_column, StudentEntity::key_name());
    assert_eq!(d.column_names, StudentEntity::column_names());
    let infos = StudentEntity::get_column_infos();
    assert_eq!(infos.len(), d.columns.len());
    for (info, col) in infos.iter().zip(d.columns.iter()) {
        assert_eq!(info.field_name, col.field_name);
        assert_eq!(info.column_name, col.column_name);
        assert_eq!(info.column_type, col.column_type);
        assert_eq!(info.is_primary_key, col.is_primary_key);
        assert_eq!(info.is_nullable, col.is_nullable);
        assert_eq!(info.is_auto_increment, col.is_auto_increment);
        assert_eq!(info.fill_on_update, col.fill_on_update);
        assert_eq!(info.fill_on_insert, col.fill_on_insert);
        assert_eq!(info.key_generate_type, col.key_generate_type);
    }
}

#[test]
fn column_constants_are_upper_case() {
    let fields = vec![
        option_field("uid", "String", vec![attr(AttrKind::Id, vec![arg_str("column", "user_id")])]),
        option_field("age", "i64", vec![]),
    ];
    let consts = column_constants(&fields);
    assert_eq!(consts, vec![("USER_ID".to_string(), "user_id".to_string()), ("AGE".to_string(), "age".to_string())]);
}
