//! A student table whose entity follows the shape the entity derive gives.
use vstd::prelude::*;
use crate::base::entity::{ColumnInfo, ColumnType, Entity, KeyGenerateType};
use crate::base::param::{ParamValue, ParamValueView, optional_param};
use crate::base::param_convert::FromParamValue;
use crate::sample::user::{field_view, optional_text, read_field};
use crate::util::text::str_equal;

verus! {

/// A row of `t_student`.
#[derive(Debug, Clone)]
pub struct StudentEntity {
    pub id: Option<i64>,
    pub name: Option<String>,
    pub age: Option<i64>,
}

/// The value of a student's field or column; `Null` for any other name.
pub open spec fn student_value(s: StudentEntity, key: Seq<char>) -> ParamValueView {
    if key == "id"@ {
        optional_param(s.id)
    } else if key == "name"@ {
        optional_text(s.name)
    } else if key == "age"@ {
        optional_param(s.age)
    } else {
        ParamValueView::Null
    }
}

/// The columns of `t_student`: the auto-increment key `id`, then `name`
/// and `age`.
pub open spec fn student_infos() -> Seq<ColumnInfo> {
    seq![
        ColumnInfo {
            field_name: "id",
            column_name: "id",
            column_type: ColumnType::I64,
            fill_on_update: false,
            fill_on_insert: false,
            is_primary_key: true,
            is_nullable: false,
            is_auto_increment: true,
            key_generate_type: KeyGenerateType::NotGenerated,
        },
        ColumnInfo {
            field_name: "name",
            column_name: "name",
            column_type: ColumnType::String,
            fill_on_update: false,
            fill_on_insert: false,
            is_primary_key: false,
            is_nullable: true,
            is_auto_increment: false,
            key_generate_type: KeyGenerateType::NotGenerated,
        },
        ColumnInfo {
            field_name: "age",
            column_name: "age",
            column_type: ColumnType::I64,
            fill_on_update: false,
            fill_on_insert: false,
            is_primary_key: false,
            is_nullable: true,
            is_auto_increment: false,
            key_generate_type: KeyGenerateType::NotGenerated,
        },
    ]
}

/// Whether `v` is of the kind of the field named `key` (`I64` for the id
/// and the age, `String` for the name).
pub open spec fn student_accepts(key: Seq<char>, v: ParamValueView) -> bool {
    ||| key == "id"@ && v is I64
    ||| key == "name"@ && v is String
    ||| key == "age"@ && v is I64
}

impl StudentEntity {
    fn value_of(&self, key: &str) -> (r: ParamValue)
        ensures
            r@ == student_value(*self, key@),
    {
        proof {
            reveal_strlit("id");
            reveal_strlit("name");
            reveal_strlit("age");
        }
        if str_equal(key, "id") {
            match self.id {
                Some(v) => ParamValue::I64(v),
                None => ParamValue::Null,
            }
        } else if str_equal(key, "name") {
            match &self.name {
                Some(s) => ParamValue::String(s.clone()),
                None => ParamValue::Null,
            }
        } else if str_equal(key, "age") {
            match self.age {
                Some(v) => ParamValue::I64(v),
                None => ParamValue::Null,
            }
        } else {
            ParamValue::Null
        }
    }

    fn set_value(&mut self, key: &str, value: ParamValue)
        ensures
            student_accepts(key@, value@) ==> student_value(*final(self), key@) == value@,
            forall|k: Seq<char>| k != key@ ==> #[trigger] student_value(*final(self), k) == student_value(*old(self), k),
            key@ == "id"@ ==> field_view(final(self).id) == read_field::<i64>(value@),
            key@ == "name"@ ==> field_view(final(self).name) == read_field::<String>(value@),
            key@ == "age"@ ==> field_view(final(self).age) == read_field::<i64>(value@),
            key@ != "id"@ ==> final(self).id == old(self).id,
            key@ != "name"@ ==> final(self).name == old(self).name,
            key@ != "age"@ ==> final(self).age == old(self).age,
    {
        proof {
            reveal_strlit("id");
            reveal_strlit("name");
            reveal_strlit("age");
            assert("id"@.len() == 2 && "name"@.len() == 4 && "age"@.len() == 3);
        }
        if str_equal(key, "id") {
            self.id = i64::from_param_value(value);
        } else if str_equal(key, "name") {
            self.name = String::from_param_value(value);
        } else if str_equal(key, "age") {
            self.age = i64::from_param_value(value);
        }
    }
}

impl Entity for StudentEntity {
    type K = i64;

    /// The key, 0 where the row has none.
    open spec fn spec_key(&self) -> i64 {
        match self.id {
            Some(v) => v,
            None => 0,
        }
    }

    open spec fn key_ready(&self) -> bool {
        true
    }

    open spec fn spec_key_name() -> Seq<char> {
        "id"@
    }

    /// The description of the key column `id`.
    open spec fn spec_key_info() -> Option<ColumnInfo> {
        Some(student_infos()[0])
    }

    open spec fn spec_column_names() -> Seq<Seq<char>> {
        seq!["id"@, "name"@, "age"@]
    }

    open spec fn spec_field_names() -> Seq<Seq<char>> {
        seq!["id"@, "name"@, "age"@]
    }

    open spec fn spec_table_name() -> Seq<char> {
        "t_student"@
    }

    open spec fn spec_column_infos() -> Seq<ColumnInfo> {
        student_infos()
    }

    open spec fn spec_value_by_field(&self, field_name: Seq<char>) -> ParamValueView {
        student_value(*self, field_name)
    }

    open spec fn spec_value_by_column(&self, column_name: Seq<char>) -> ParamValueView {
        student_value(*self, column_name)
    }

    open spec fn field_accepts(field_name: Seq<char>, v: ParamValueView) -> bool {
        student_accepts(field_name, v)
    }

    open spec fn column_accepts(column_name: Seq<char>, v: ParamValueView) -> bool {
        student_accepts(column_name, v)
    }

    fn has_key(&self) -> (r: bool) {
        true
    }

    fn key(&self) -> (r: i64) {
        match self.id {
            Some(v) => v,
            None => 0,
        }
    }

    fn key_name() -> (r: &'static str) {
        "id"
    }

    fn key_info() -> (r: Option<ColumnInfo>) {
        Some(ColumnInfo::new("id", "id", ColumnType::I64, false, false, true, false, true, KeyGenerateType::NotGenerated))
    }

    fn column_names() -> (r: Vec<&'static str>) {
        let r = vec!["id", "name", "age"];
        proof {
            assert(crate::util::text::str_views(r@) =~= Self::spec_column_names());
        }
        r
    }

    fn field_names() -> (r: Vec<&'static str>) {
        let r = vec!["id", "name", "age"];
        proof {
            assert(crate::util::text::str_views(r@) =~= Self::spec_field_names());
        }
        r
    }

    fn table_name() -> (r: &'static str) {
        "t_student"
    }

    /// A row with every field empty.
    fn new() -> (r: Self)
        ensures
            r.id is None && r.name is None && r.age is None,
    {
        StudentEntity { id: None, name: None, age: None }
    }

    fn get_value_by_field_name(&self, field_name: &str) -> (r: ParamValue) {
        self.value_of(field_name)
    }

    fn get_value_by_column_name(&self, column_name: &str) -> (r: ParamValue) {
        self.value_of(column_name)
    }

    /// Sets the field with this name to the value read as its type; any
    /// other name changes nothing.
    fn set_value_by_field_name(&mut self, field_name: &str, value: ParamValue)
        ensures
            field_name@ == "id"@ ==> field_view(final(self).id) == read_field::<i64>(value@),
            field_name@ == "name"@ ==> field_view(final(self).name) == read_field::<String>(value@),
            field_name@ == "age"@ ==> field_view(final(self).age) == read_field::<i64>(value@),
            field_name@ != "id"@ ==> final(self).id == old(self).id,
            field_name@ != "name"@ ==> final(self).name == old(self).name,
            field_name@ != "age"@ ==> final(self).age == old(self).age,
    {
        self.set_value(field_name, value);
    }

    /// Sets the field of this column to the value read as its type; any
    /// other name changes nothing.
    fn set_value_by_column_name(&mut self, column_name: &str, value: ParamValue)
        ensures
            column_name@ == "id"@ ==> field_view(final(self).id) == read_field::<i64>(value@),
            column_name@ == "name"@ ==> field_view(final(self).name) == read_field::<String>(value@),
            column_name@ == "age"@ ==> field_view(final(self).age) == read_field::<i64>(value@),
            column_name@ != "id"@ ==> final(self).id == old(self).id,
            column_name@ != "name"@ ==> final(self).name == old(self).name,
            column_name@ != "age"@ ==> final(self).age == old(self).age,
    {
        self.set_value(column_name, value);
    }

    fn get_column_infos() -> (r: Vec<ColumnInfo>) {
        let r = vec![
            ColumnInfo::new("id", "id", ColumnType::I64, false, false, true, false, true, KeyGenerateType::NotGenerated),
            ColumnInfo::new("name", "name", ColumnType::String, false, false, false, true, false, KeyGenerateType::NotGenerated),
            ColumnInfo::new("age", "age", ColumnType::I64, false, false, false, true, false, KeyGenerateType::NotGenerated),
        ];
        proof {
            assert(r@ =~= student_infos());
        }
        r
    }
}

/// The query side of the students table.
pub struct StudentMapper;

} // verus!
