//! What the library knows of a mapped table: its entity trait and the
//! description of its columns.
use vstd::prelude::*;
use crate::base::param::{IntoParamValue, ParamValue, ParamValueView};
use crate::util::text::{str_equal, str_views};

verus! {

/// A row type mapped to a table. Each method is tied to a spec function, so
/// that the SQL built from an entity can be stated over these functions.
pub trait Entity: Sized {
    /// The type of the primary key.
    type K: IntoParamValue + Clone;

    spec fn spec_key(&self) -> Self::K;

    /// Whether the key of this row can be read.
    spec fn key_ready(&self) -> bool;

    spec fn spec_key_name() -> Seq<char>;

    spec fn spec_key_info() -> Option<ColumnInfo>;

    spec fn spec_column_names() -> Seq<Seq<char>>;

    spec fn spec_field_names() -> Seq<Seq<char>>;

    spec fn spec_table_name() -> Seq<char>;

    spec fn spec_column_infos() -> Seq<ColumnInfo>;

    /// The value of the field with this name.
    spec fn spec_value_by_field(&self, field_name: Seq<char>) -> ParamValueView;

    /// The value of the column with this name.
    spec fn spec_value_by_column(&self, column_name: Seq<char>) -> ParamValueView;

    /// Whether the field with this name exists and holds `v` as it is, once
    /// set to it (a value of the field's own kind).
    spec fn field_accepts(field_name: Seq<char>, v: ParamValueView) -> bool;

    /// Whether the column with this name exists and holds `v` as it is, once
    /// set to it (a value of the column's own kind).
    spec fn column_accepts(column_name: Seq<char>, v: ParamValueView) -> bool;

    /// Whether the key of this row can be read.
    fn has_key(&self) -> (r: bool)
        ensures
            r == self.key_ready(),
    ;

    fn key(&self) -> (r: Self::K)
        requires
            self.key_ready(),
        ensures
            r == self.spec_key(),
    ;

    fn key_name() -> (r: &'static str)
        ensures
            r@ == Self::spec_key_name(),
    ;

    fn key_info() -> (r: Option<ColumnInfo>)
        ensures
            r == Self::spec_key_info(),
    ;

    fn column_names() -> (r: Vec<&'static str>)
        ensures
            str_views(r@) == Self::spec_column_names(),
    ;

    fn field_names() -> (r: Vec<&'static str>)
        ensures
            str_views(r@) == Self::spec_field_names(),
    ;

    fn table_name() -> (r: &'static str)
        ensures
            r@ == Self::spec_table_name(),
    ;

    /// A row with every field empty: every field and column reads `Null`.
    fn new() -> (r: Self)
        ensures
            forall|f: Seq<char>| #[trigger] r.spec_value_by_field(f) is Null,
            forall|c: Seq<char>| #[trigger] r.spec_value_by_column(c) is Null,
    ;

    fn get_value_by_field_name(&self, field_name: &str) -> (r: ParamValue)
        ensures
            r@ == self.spec_value_by_field(field_name@),
    ;

    fn get_value_by_column_name(&self, column_name: &str) -> (r: ParamValue)
        ensures
            r@ == self.spec_value_by_column(column_name@),
    ;

    /// Sets the field with this name to the value read as its type: a value
    /// of the field's own kind reads back as it is, and every other field is
    /// unchanged.
    fn set_value_by_field_name(&mut self, field_name: &str, value: ParamValue)
        ensures
            Self::field_accepts(field_name@, value@) ==> final(self).spec_value_by_field(field_name@) == value@,
            forall|f: Seq<char>| f != field_name@ ==> #[trigger] final(self).spec_value_by_field(f)
                == old(self).spec_value_by_field(f),
    ;

    /// Sets the field of the column with this name to the value read as its
    /// type: a value of the column's own kind reads back as it is, and every
    /// other column is unchanged.
    fn set_value_by_column_name(&mut self, column_name: &str, value: ParamValue)
        ensures
            Self::column_accepts(column_name@, value@) ==> final(self).spec_value_by_column(column_name@) == value@,
            forall|c: Seq<char>| c != column_name@ ==> #[trigger] final(self).spec_value_by_column(c)
                == old(self).spec_value_by_column(c),
    ;

    fn get_column_infos() -> (r: Vec<ColumnInfo>)
        ensures
            r@ == Self::spec_column_infos(),
    ;
}

/// A row type that query results are read into, by field or column name.
pub trait Mapping: Sized {
    spec fn spec_column_names() -> Seq<Seq<char>>;

    spec fn spec_field_names() -> Seq<Seq<char>>;

    /// The value of the field with this name.
    spec fn spec_value_by_field(&self, field_name: Seq<char>) -> ParamValueView;

    /// The value of the column with this name.
    spec fn spec_value_by_column(&self, column_name: Seq<char>) -> ParamValueView;

    fn column_names() -> (r: Vec<&'static str>)
        ensures
            str_views(r@) == Self::spec_column_names(),
    ;

    fn field_names() -> (r: Vec<&'static str>)
        ensures
            str_views(r@) == Self::spec_field_names(),
    ;

    fn new() -> Self;

    fn get_value_by_field_name(&self, field_name: &str) -> (r: ParamValue)
        ensures
            r@ == self.spec_value_by_field(field_name@),
    ;

    fn get_value_by_column_name(&self, column_name: &str) -> (r: ParamValue)
        ensures
            r@ == self.spec_value_by_column(column_name@),
    ;

    fn set_value_by_field_name(&mut self, field_name: &str, value: ParamValue);

    fn set_value_by_column_name(&mut self, column_name: &str, value: ParamValue);
}

/// How the value of a primary key is produced.
#[derive(Clone, Copy, Debug, PartialEq, Eq, Structural)]
pub enum KeyGenerateType {
    NotGenerated,
    AutoIncrement,
    UUID,
    UseGeneratedKeys,
    Sequence,
}

/// The lower-case form that `str::to_lowercase` gives of a text.
pub uninterp spec fn lowercase(s: Seq<char>) -> Seq<char>;

/// `str::to_lowercase`: its result is named by `lowercase` and nothing more
/// of it is stated.
#[verifier::external_body]
pub(crate) fn str_to_lowercase(s: &str) -> (r: String)
    ensures
        r@ == lowercase(s@),
{
    s.to_lowercase()
}

/// The key generation named by a lower-case text; an unknown name means none.
pub open spec fn key_type_of_lowercase(text: Seq<char>) -> KeyGenerateType {
    if text == "auto_increment"@ {
        KeyGenerateType::AutoIncrement
    } else if text == "uuid"@ {
        KeyGenerateType::UUID
    } else if text == "use_generated_keys"@ {
        KeyGenerateType::UseGeneratedKeys
    } else if text == "sequence"@ {
        KeyGenerateType::Sequence
    } else {
        KeyGenerateType::NotGenerated
    }
}

/// The key generation named by a text in any case.
pub open spec fn key_type_of(text: Seq<char>) -> KeyGenerateType {
    key_type_of_lowercase(lowercase(text))
}

impl KeyGenerateType {
    /// The key generation named by a text that is already in lower case:
    /// "auto_increment", "uuid", "use_generated_keys" or "sequence"; any other
    /// text, "none" among them, gives `None`.
    pub fn from_lowercase(text: &str) -> (r: KeyGenerateType)
        ensures
            r == key_type_of_lowercase(text@),
    {
        if str_equal(text, "auto_increment") {
            KeyGenerateType::AutoIncrement
        } else if str_equal(text, "uuid") {
            KeyGenerateType::UUID
        } else if str_equal(text, "use_generated_keys") {
            KeyGenerateType::UseGeneratedKeys
        } else if str_equal(text, "sequence") {
            KeyGenerateType::Sequence
        } else {
            KeyGenerateType::NotGenerated
        }
    }

    /// The key generation named by a text in any case.
    pub fn from_text(text: &str) -> (r: KeyGenerateType)
        ensures
            r == key_type_of(text@),
    {
        let lower = str_to_lowercase(text);
        Self::from_lowercase(lower.as_str())
    }

    /// The key generation named by an optional text; none when absent.
    pub fn from_optional(text: Option<String>) -> (r: KeyGenerateType)
        ensures
            r == (match text {
                Some(t) => key_type_of(t@),
                None => KeyGenerateType::NotGenerated,
            }),
    {
        match text {
            Some(t) => Self::from_text(t.as_str()),
            None => KeyGenerateType::NotGenerated,
        }
    }
}

impl<'a> From<&'a str> for KeyGenerateType {
    fn from(value: &'a str) -> (r: KeyGenerateType) {
        KeyGenerateType::from_text(value)
    }
}

impl<'a> vstd::std_specs::convert::FromSpecImpl<&'a str> for KeyGenerateType {
    open spec fn obeys_from_spec() -> bool {
        true
    }

    open spec fn from_spec(v: &'a str) -> KeyGenerateType {
        key_type_of(v@)
    }
}

impl From<String> for KeyGenerateType {
    fn from(value: String) -> (r: KeyGenerateType) {
        KeyGenerateType::from_text(value.as_str())
    }
}

impl vstd::std_specs::convert::FromSpecImpl<String> for KeyGenerateType {
    open spec fn obeys_from_spec() -> bool {
        true
    }

    open spec fn from_spec(v: String) -> KeyGenerateType {
        key_type_of(v@)
    }
}

impl From<Option<String>> for KeyGenerateType {
    fn from(value: Option<String>) -> (r: KeyGenerateType) {
        KeyGenerateType::from_optional(value)
    }
}

impl vstd::std_specs::convert::FromSpecImpl<Option<String>> for KeyGenerateType {
    open spec fn obeys_from_spec() -> bool {
        true
    }

    open spec fn from_spec(v: Option<String>) -> KeyGenerateType {
        match v {
            Some(t) => key_type_of(t@),
            None => KeyGenerateType::NotGenerated,
        }
    }
}

/// The type of the values of a column.
#[derive(Clone, Copy, Debug, PartialEq, Eq, Structural)]
pub enum ColumnType {
    I8,
    I16,
    I32,
    I64,
    U8,
    U16,
    U32,
    U64,
    USize,
    F32,
    F64,
    Bool,
    String,
    DateTime,
    /// Bytes (`Vec<u8>`).
    Blob,
    /// Any other vector.
    Clob,
    /// A type the mapping does not know.
    Null,
}

/// The description of one column of a mapped table.
#[derive(Clone, Copy, Debug)]
pub struct ColumnInfo {
    pub field_name: &'static str,
    pub column_name: &'static str,
    pub column_type: ColumnType,
    /// Filled with the current time on update (date-time columns only).
    pub fill_on_update: bool,
    /// Filled with the current time on insert (date-time columns only).
    pub fill_on_insert: bool,
    pub is_primary_key: bool,
    pub is_nullable: bool,
    pub is_auto_increment: bool,
    pub key_generate_type: KeyGenerateType,
}

impl ColumnInfo {
    pub fn new(
        field_name: &'static str,
        column_name: &'static str,
        column_type: ColumnType,
        fill_on_update: bool,
        fill_on_insert: bool,
        is_primary_key: bool,
        is_nullable: bool,
        is_auto_increment: bool,
        key_generate_type: KeyGenerateType,
    ) -> (r: Self)
        ensures
            r.field_name == field_name,
            r.column_name == column_name,
            r.column_type == column_type,
            r.fill_on_update == fill_on_update,
            r.fill_on_insert == fill_on_insert,
            r.is_primary_key == is_primary_key,
            r.is_nullable == is_nullable,
            r.is_auto_increment == is_auto_increment,
            r.key_generate_type == key_generate_type,
    {
        ColumnInfo {
            field_name,
            column_name,
            column_type,
            fill_on_update,
            fill_on_insert,
            is_primary_key,
            is_nullable,
            is_auto_increment,
            key_generate_type,
        }
    }
}

/// A handler of values of a key type.
pub trait TypeHandler {
    type K: IntoParamValue;
}

} // verus!
