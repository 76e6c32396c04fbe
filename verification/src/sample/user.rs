//! A user table whose entity is written out by hand.
use vstd::prelude::*;
use crate::base::entity::{ColumnInfo, Entity};
use crate::base::param::{ParamValue, ParamValueView, optional_param};
use crate::base::param_convert::FromParamValue;
use crate::util::text::str_equal;

verus! {

/// A row of `t_user`.
pub struct UserEntity {
    pub id: Option<i64>,
    pub name: Option<String>,
    pub age: Option<i32>,
    pub sex: Option<u8>,
}

/// The value of an optional text.
pub open spec fn optional_text(v: Option<String>) -> ParamValueView {
    match v {
        Some(s) => ParamValueView::String(s@),
        None => ParamValueView::Null,
    }
}

fn text_param(v: &Option<String>) -> (r: ParamValue)
    ensures
        r@ == optional_text(*v),
{
    match v {
        Some(s) => ParamValue::String(s.clone()),
        None => ParamValue::Null,
    }
}

/// A value read into an optional field: `None` where it cannot be read.
pub open spec fn read_field<T: FromParamValue>(v: ParamValueView) -> Option<<T as View>::V> {
    T::spec_from_param(v)
}

/// The view of an optional field.
pub open spec fn field_view<T: View>(v: Option<T>) -> Option<<T as View>::V> {
    match v {
        Some(x) => Some(x@),
        None => None,
    }
}

/// The value of a user's column (by lower-case column name, or, for the
/// field lookup, by upper-case name); `Null` for any other name.
pub open spec fn user_value(u: UserEntity, id: Seq<char>, name: Seq<char>, age: Seq<char>, sex: Seq<char>, key: Seq<char>) -> ParamValueView {
    if key == id {
        optional_param(u.id)
    } else if key == name {
        optional_text(u.name)
    } else if key == age {
        optional_param(u.age)
    } else if key == sex {
        optional_param(u.sex)
    } else {
        ParamValueView::Null
    }
}

/// Whether `v` is of the kind of the field named `key` (`I64` for the id,
/// `String` for the name, `I32` for the age, `U8` for the sex).
pub open spec fn user_accepts(id: Seq<char>, name: Seq<char>, age: Seq<char>, sex: Seq<char>, key: Seq<char>, v: ParamValueView) -> bool {
    ||| key == id && v is I64
    ||| key == name && v is String
    ||| key == age && v is I32
    ||| key == sex && v is U8
}

impl UserEntity {
    fn value_of(&self, key: &str, id: &str, name: &str, age: &str, sex: &str) -> (r: ParamValue)
        ensures
            r@ == user_value(*self, id@, name@, age@, sex@, key@),
    {
        if str_equal(key, id) {
            match self.id { Some(v) => ParamValue::I64(v), None => ParamValue::Null }
        } else if str_equal(key, name) {
            text_param(&self.name)
        } else if str_equal(key, age) {
            match self.age { Some(v) => ParamValue::I32(v), None => ParamValue::Null }
        } else if str_equal(key, sex) {
            match self.sex { Some(v) => ParamValue::U8(v), None => ParamValue::Null }
        } else {
            ParamValue::Null
        }
    }

    fn set_value(&mut self, key: &str, id: &str, name: &str, age: &str, sex: &str, value: ParamValue)
        requires
            id@ != name@ && id@ != age@ && id@ != sex@ && name@ != age@ && name@ != sex@ && age@ != sex@,
        ensures
            user_accepts(id@, name@, age@, sex@, key@, value@) ==> user_value(*final(self), id@, name@, age@, sex@, key@)
                == value@,
            forall|k: Seq<char>| k != key@ ==> #[trigger] user_value(*final(self), id@, name@, age@, sex@, k)
                == user_value(*old(self), id@, name@, age@, sex@, k),
            key@ == id@ ==> field_view(final(self).id) == read_field::<i64>(value@),
            key@ != id@ && key@ == name@ ==> field_view(final(self).name) == read_field::<String>(value@),
            key@ != id@ && key@ != name@ && key@ == age@ ==> field_view(final(self).age) == read_field::<i32>(value@),
            key@ != id@ && key@ != name@ && key@ != age@ && key@ == sex@ ==> field_view(final(self).sex)
                == read_field::<u8>(value@),
            key@ != id@ ==> final(self).id == old(self).id,
            (key@ == id@ || key@ != name@) ==> final(self).name == old(self).name,
            (key@ == id@ || key@ == name@ || key@ != age@) ==> final(self).age == old(self).age,
            (key@ == id@ || key@ == name@ || key@ == age@ || key@ != sex@) ==> final(self).sex == old(self).sex,
    {
        if str_equal(key, id) {
            self.id = i64::from_param_value(value);
        } else if str_equal(key, name) {
            self.name = String::from_param_value(value);
        } else if str_equal(key, age) {
            self.age = i32::from_param_value(value);
        } else if str_equal(key, sex) {
            self.sex = u8::from_param_value(value);
        }
    }
}

impl Entity for UserEntity {
    type K = i64;

    open spec fn spec_key(&self) -> i64 {
        self.id->0
    }

    /// The key is read only where the row has one.
    open spec fn key_ready(&self) -> bool {
        self.id is Some
    }

    open spec fn spec_key_name() -> Seq<char> {
        "id"@
    }

    open spec fn spec_key_info() -> Option<ColumnInfo> {
        None
    }

    open spec fn spec_column_names() -> Seq<Seq<char>> {
        seq!["ID"@, "NAME"@, "AGE"@, "SEX"@]
    }

    open spec fn spec_field_names() -> Seq<Seq<char>> {
        seq!["id"@, "name"@, "age"@, "sex"@]
    }

    open spec fn spec_table_name() -> Seq<char> {
        "t_user"@
    }

    open spec fn spec_column_infos() -> Seq<ColumnInfo> {
        Seq::empty()
    }

    /// The field lookup goes by the upper-case names.
    open spec fn spec_value_by_field(&self, field_name: Seq<char>) -> ParamValueView {
        user_value(*self, "ID"@, "NAME"@, "AGE"@, "SEX"@, field_name)
    }

    open spec fn spec_value_by_column(&self, column_name: Seq<char>) -> ParamValueView {
        user_value(*self, "id"@, "name"@, "age"@, "sex"@, column_name)
    }

    open spec fn field_accepts(field_name: Seq<char>, v: ParamValueView) -> bool {
        user_accepts("ID"@, "NAME"@, "AGE"@, "SEX"@, field_name, v)
    }

    open spec fn column_accepts(column_name: Seq<char>, v: ParamValueView) -> bool {
        user_accepts("id"@, "name"@, "age"@, "sex"@, column_name, v)
    }

    fn has_key(&self) -> (r: bool) {
        self.id.is_some()
    }

    fn key(&self) -> (r: i64) {
        self.id.unwrap()
    }

    fn key_name() -> (r: &'static str) {
        "id"
    }

    fn key_info() -> (r: Option<ColumnInfo>) {
        None
    }

    fn column_names() -> (r: Vec<&'static str>) {
        let r = vec!["ID", "NAME", "AGE", "SEX"];
        proof {
            assert(crate::util::text::str_views(r@) =~= Self::spec_column_names());
        }
        r
    }

    fn field_names() -> (r: Vec<&'static str>) {
        let r = vec!["id", "name", "age", "sex"];
        proof {
            assert(crate::util::text::str_views(r@) =~= Self::spec_field_names());
        }
        r
    }

    fn table_name() -> (r: &'static str) {
        "t_user"
    }

    /// A row with every field empty.
    fn new() -> (r: Self)
        ensures
            r.id is None && r.name is None && r.age is None && r.sex is None,
    {
        UserEntity { id: None, name: None, age: None, sex: None }
    }

    fn get_value_by_field_name(&self, field_name: &str) -> (r: ParamValue) {
        self.value_of(field_name, "ID", "NAME", "AGE", "SEX")
    }

    fn get_value_by_column_name(&self, column_name: &str) -> (r: ParamValue) {
        self.value_of(column_name, "id", "name", "age", "sex")
    }

    /// Sets the field with this upper-case name to the value read as its
    /// type; any other name changes nothing.
    fn set_value_by_field_name(&mut self, field_name: &str, value: ParamValue)
        ensures
            field_name@ == "ID"@ ==> field_view(final(self).id) == read_field::<i64>(value@),
            field_name@ == "NAME"@ ==> field_view(final(self).name) == read_field::<String>(value@),
            field_name@ == "AGE"@ ==> field_view(final(self).age) == read_field::<i32>(value@),
            field_name@ == "SEX"@ ==> field_view(final(self).sex) == read_field::<u8>(value@),
            field_name@ != "ID"@ ==> final(self).id == old(self).id,
            field_name@ != "NAME"@ ==> final(self).name == old(self).name,
            field_name@ != "AGE"@ ==> final(self).age == old(self).age,
            field_name@ != "SEX"@ ==> final(self).sex == old(self).sex,
    {
        proof {
            reveal_strlit("ID");
            reveal_strlit("NAME");
            reveal_strlit("AGE");
            reveal_strlit("SEX");
            assert("ID"@.len() == 2 && "NAME"@.len() == 4 && "AGE"@.len() == 3 && "SEX"@.len() == 3);
            assert("AGE"@ != "SEX"@) by {
                assert("AGE"@[0] != "SEX"@[0]);
            }
        }
        self.set_value(field_name, "ID", "NAME", "AGE", "SEX", value);
    }

    /// Sets the field of this column to the value read as its type; any
    /// other name changes nothing.
    fn set_value_by_column_name(&mut self, column_name: &str, value: ParamValue)
        ensures
            column_name@ == "id"@ ==> field_view(final(self).id) == read_field::<i64>(value@),
            column_name@ == "name"@ ==> field_view(final(self).name) == read_field::<String>(value@),
            column_name@ == "age"@ ==> field_view(final(self).age) == read_field::<i32>(value@),
            column_name@ == "sex"@ ==> field_view(final(self).sex) == read_field::<u8>(value@),
            column_name@ != "id"@ ==> final(self).id == old(self).id,
            column_name@ != "name"@ ==> final(self).name == old(self).name,
            column_name@ != "age"@ ==> final(self).age == old(self).age,
            column_name@ != "sex"@ ==> final(self).sex == old(self).sex,
    {
        proof {
            reveal_strlit("id");
            reveal_strlit("name");
            reveal_strlit("age");
            reveal_strlit("sex");
            assert("id"@.len() == 2 && "name"@.len() == 4 && "age"@.len() == 3 && "sex"@.len() == 3);
            assert("age"@ != "sex"@) by {
                assert("age"@[0] != "sex"@[0]);
            }
        }
        self.set_value(column_name, "id", "name", "age", "sex", value);
    }

    fn get_column_infos() -> (r: Vec<ColumnInfo>) {
        Vec::new()
    }
}

/// The query side of the users table.
pub struct UserMapper;

/// A user as returned by a lookup.
pub struct User {
    pub id: i32,
    pub name: String,
}

} // verus!
