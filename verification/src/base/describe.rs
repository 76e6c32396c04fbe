//! What an entity or mapping declaration describes: the column of each
//! field, read from its type and its `id`/`field` attributes, the table
//! name, the key, and the errors of a declaration that cannot be mapped.
use vstd::prelude::*;
use crate::base::entity::{ColumnType, KeyGenerateType, key_type_of, lowercase, str_to_lowercase};
use crate::util::text::{concat2, concat3, str_equal, string_views};

verus! {

/// The column type of a field's type, by the name of the type (the last
/// segment of its path); `vec_of_u8` tells a `Vec<u8>` from other vectors.
pub open spec fn column_type_spec(type_ident: Seq<char>, vec_of_u8: bool) -> ColumnType {
    if type_ident == "i8"@ { ColumnType::I8 }
    else if type_ident == "i16"@ { ColumnType::I16 }
    else if type_ident == "i32"@ { ColumnType::I32 }
    else if type_ident == "i64"@ { ColumnType::I64 }
    else if type_ident == "u8"@ { ColumnType::U8 }
    else if type_ident == "u16"@ { ColumnType::U16 }
    else if type_ident == "u32"@ { ColumnType::U32 }
    else if type_ident == "u64"@ { ColumnType::U64 }
    else if type_ident == "usize"@ { ColumnType::USize }
    else if type_ident == "f32"@ { ColumnType::F32 }
    else if type_ident == "f64"@ { ColumnType::F64 }
    else if type_ident == "bool"@ { ColumnType::Bool }
    else if type_ident == "String"@ { ColumnType::String }
    else if type_ident == "DateTime"@ { ColumnType::DateTime }
    else if type_ident == "Vec"@ { if vec_of_u8 { ColumnType::Blob } else { ColumnType::Clob } }
    else { ColumnType::Null }
}

/// The column type of each type name a field can have: every integer and
/// float type, `bool`, `String` and `DateTime` give the column type of the
/// same name, whatever `vec_of_u8` says; `Vec` gives a blob for `Vec<u8>`
/// and a text blob for other vectors.
pub proof fn law_column_types(vec_of_u8: bool)
    ensures
        column_type_spec("i8"@, vec_of_u8) == ColumnType::I8,
        column_type_spec("i16"@, vec_of_u8) == ColumnType::I16,
        column_type_spec("i32"@, vec_of_u8) == ColumnType::I32,
        column_type_spec("i64"@, vec_of_u8) == ColumnType::I64,
        column_type_spec("u8"@, vec_of_u8) == ColumnType::U8,
        column_type_spec("u16"@, vec_of_u8) == ColumnType::U16,
        column_type_spec("u32"@, vec_of_u8) == ColumnType::U32,
        column_type_spec("u64"@, vec_of_u8) == ColumnType::U64,
        column_type_spec("usize"@, vec_of_u8) == ColumnType::USize,
        column_type_spec("f32"@, vec_of_u8) == ColumnType::F32,
        column_type_spec("f64"@, vec_of_u8) == ColumnType::F64,
        column_type_spec("bool"@, vec_of_u8) == ColumnType::Bool,
        column_type_spec("String"@, vec_of_u8) == ColumnType::String,
        column_type_spec("DateTime"@, vec_of_u8) == ColumnType::DateTime,
        column_type_spec("Vec"@, true) == ColumnType::Blob,
        column_type_spec("Vec"@, false) == ColumnType::Clob,
{
    lemma_type_names();
}

/// A type with any other name has no column type.
pub proof fn law_other_types_have_no_column_type(type_ident: Seq<char>, vec_of_u8: bool)
    requires
        type_ident != "i8"@,
        type_ident != "i16"@,
        type_ident != "i32"@,
        type_ident != "i64"@,
        type_ident != "u8"@,
        type_ident != "u16"@,
        type_ident != "u32"@,
        type_ident != "u64"@,
        type_ident != "usize"@,
        type_ident != "f32"@,
        type_ident != "f64"@,
        type_ident != "bool"@,
        type_ident != "String"@,
        type_ident != "DateTime"@,
        type_ident != "Vec"@,
    ensures
        column_type_spec(type_ident, vec_of_u8) == ColumnType::Null,
{
}

proof fn lemma_type_names()
    ensures
        "i8"@.len() == 2 && "i8"@[0] == 'i' && "i8"@[1] == '8',
        "i16"@.len() == 3 && "i16"@[0] == 'i' && "i16"@[1] == '1',
        "i32"@.len() == 3 && "i32"@[0] == 'i' && "i32"@[1] == '3',
        "i64"@.len() == 3 && "i64"@[0] == 'i' && "i64"@[1] == '6',
        "u8"@.len() == 2 && "u8"@[0] == 'u' && "u8"@[1] == '8',
        "u16"@.len() == 3 && "u16"@[0] == 'u' && "u16"@[1] == '1',
        "u32"@.len() == 3 && "u32"@[0] == 'u' && "u32"@[1] == '3',
        "u64"@.len() == 3 && "u64"@[0] == 'u' && "u64"@[1] == '6',
        "usize"@.len() == 5 && "usize"@[0] == 'u' && "usize"@[1] == 's',
        "f32"@.len() == 3 && "f32"@[0] == 'f' && "f32"@[1] == '3',
        "f64"@.len() == 3 && "f64"@[0] == 'f' && "f64"@[1] == '6',
        "bool"@.len() == 4 && "bool"@[0] == 'b' && "bool"@[1] == 'o',
        "String"@.len() == 6 && "String"@[0] == 'S' && "String"@[1] == 't',
        "DateTime"@.len() == 8 && "DateTime"@[0] == 'D' && "DateTime"@[1] == 'a',
        "Vec"@.len() == 3 && "Vec"@[0] == 'V' && "Vec"@[1] == 'e',
{
    reveal_strlit("i8");
    reveal_strlit("i16");
    reveal_strlit("i32");
    reveal_strlit("i64");
    reveal_strlit("u8");
    reveal_strlit("u16");
    reveal_strlit("u32");
    reveal_strlit("u64");
    reveal_strlit("usize");
    reveal_strlit("f32");
    reveal_strlit("f64");
    reveal_strlit("bool");
    reveal_strlit("String");
    reveal_strlit("DateTime");
    reveal_strlit("Vec");
}

/// The column type of a field's type.
pub fn column_type_of(type_ident: &str, vec_of_u8: bool) -> (r: ColumnType)
    ensures
        r == column_type_spec(type_ident@, vec_of_u8),
{
    if str_equal(type_ident, "i8") { ColumnType::I8 }
    else if str_equal(type_ident, "i16") { ColumnType::I16 }
    else if str_equal(type_ident, "i32") { ColumnType::I32 }
    else if str_equal(type_ident, "i64") { ColumnType::I64 }
    else if str_equal(type_ident, "u8") { ColumnType::U8 }
    else if str_equal(type_ident, "u16") { ColumnType::U16 }
    else if str_equal(type_ident, "u32") { ColumnType::U32 }
    else if str_equal(type_ident, "u64") { ColumnType::U64 }
    else if str_equal(type_ident, "usize") { ColumnType::USize }
    else if str_equal(type_ident, "f32") { ColumnType::F32 }
    else if str_equal(type_ident, "f64") { ColumnType::F64 }
    else if str_equal(type_ident, "bool") { ColumnType::Bool }
    else if str_equal(type_ident, "String") { ColumnType::String }
    else if str_equal(type_ident, "DateTime") { ColumnType::DateTime }
    else if str_equal(type_ident, "Vec") { if vec_of_u8 { ColumnType::Blob } else { ColumnType::Clob } }
    else { ColumnType::Null }
}

/// The value of an attribute argument: a string literal, a boolean
/// literal, a literal of another kind, or none (the key alone).
pub enum AttrValue {
    Str(String),
    Bool(bool),
    OtherLit,
    Absent,
}

/// The mathematical content of an `AttrValue`.
pub enum AttrValueView {
    Str(Seq<char>),
    Bool(bool),
    OtherLit,
    Absent,
}

impl View for AttrValue {
    type V = AttrValueView;

    open spec fn view(&self) -> AttrValueView {
        match self {
            AttrValue::Str(s) => AttrValueView::Str(s@),
            AttrValue::Bool(b) => AttrValueView::Bool(*b),
            AttrValue::OtherLit => AttrValueView::OtherLit,
            AttrValue::Absent => AttrValueView::Absent,
        }
    }
}

/// Which attribute of a field: `#[id(..)]`, `#[field(..)]`, or another one.
#[derive(Clone, Copy, Debug, PartialEq, Eq, Structural)]
pub enum AttrKind {
    Id,
    Field,
    Other,
}

/// One attribute of a field, with its `key = value` arguments in order.
pub struct FieldAttr {
    pub kind: AttrKind,
    pub args: Vec<(String, AttrValue)>,
}

/// The arguments of an attribute, as plain values.
pub open spec fn arg_views(args: Seq<(String, AttrValue)>) -> Seq<(Seq<char>, AttrValueView)> {
    args.map_values(|a: (String, AttrValue)| (a.0@, a.1@))
}

/// What the attributes of a field set.
pub struct DeclState {
    pub column_name: Seq<char>,
    pub sql_type: Seq<char>,
    pub is_id: bool,
    pub is_auto_increment: bool,
    pub is_nullable: bool,
    pub key_generate_type: Option<Seq<char>>,
    pub fill_on_update: bool,
    pub fill_on_insert: bool,
}

/// Before any attribute: the column is named as the field, its SQL type is
/// "varchar", it is nullable, and nothing else is set.
pub open spec fn initial_state(field_name: Seq<char>) -> DeclState {
    DeclState {
        column_name: field_name,
        sql_type: "varchar"@,
        is_id: false,
        is_auto_increment: false,
        is_nullable: true,
        key_generate_type: None,
        fill_on_update: false,
        fill_on_insert: false,
    }
}

/// One argument read. `column` and `type` take a string in either
/// attribute; in `id`, `auto_increment` takes a boolean and
/// `key_generate_type` a string; in `field`, `nullable`, `fill_on_update`
/// and `fill_on_insert` take a boolean. Another key written alone is passed
/// over. Anything else (a known key without the literal it takes, another
/// key with a value) ends the reading (`None`).
pub open spec fn arg_step(s: DeclState, kind: AttrKind, key: Seq<char>, v: AttrValueView) -> Option<DeclState> {
    if key == "column"@ {
        if v is Str { Some(DeclState { column_name: v->Str_0, ..s }) } else { None }
    } else if key == "type"@ {
        if v is Str { Some(DeclState { sql_type: v->Str_0, ..s }) } else { None }
    } else if kind == AttrKind::Id && key == "auto_increment"@ {
        if v is Bool { Some(DeclState { is_auto_increment: v->Bool_0, ..s }) } else { None }
    } else if kind == AttrKind::Id && key == "key_generate_type"@ {
        if v is Str { Some(DeclState { key_generate_type: Some(v->Str_0), ..s }) } else { None }
    } else if kind == AttrKind::Field && key == "nullable"@ {
        if v is Bool { Some(DeclState { is_nullable: v->Bool_0, ..s }) } else { None }
    } else if kind == AttrKind::Field && key == "fill_on_update"@ {
        if v is Bool { Some(DeclState { fill_on_update: v->Bool_0, ..s }) } else { None }
    } else if kind == AttrKind::Field && key == "fill_on_insert"@ {
        if v is Bool { Some(DeclState { fill_on_insert: v->Bool_0, ..s }) } else { None }
    } else if v is Absent {
        Some(s)
    } else {
        None
    }
}

/// The arguments read in order, up to the first that ends the reading.
pub open spec fn apply_args(s: DeclState, kind: AttrKind, args: Seq<(Seq<char>, AttrValueView)>) -> DeclState
    decreases args.len(),
{
    if args.len() == 0 {
        s
    } else {
        match arg_step(s, kind, args[0].0, args[0].1) {
            Some(t) => apply_args(t, kind, args.skip(1)),
            None => s,
        }
    }
}

/// One attribute read: `id` marks the key (not nullable) and reads its
/// arguments; `field` reads its arguments; any other changes nothing.
pub open spec fn apply_attr(s: DeclState, kind: AttrKind, args: Seq<(Seq<char>, AttrValueView)>) -> DeclState {
    match kind {
        AttrKind::Id => apply_args(DeclState { is_id: true, is_nullable: false, ..s }, kind, args),
        AttrKind::Field => apply_args(s, kind, args),
        AttrKind::Other => s,
    }
}

/// The attributes read in order.
pub open spec fn apply_attrs(s: DeclState, attrs: Seq<FieldAttr>) -> DeclState
    decreases attrs.len(),
{
    if attrs.len() == 0 {
        s
    } else {
        let a = attrs.last();
        apply_attr(apply_attrs(s, attrs.drop_last()), a.kind, arg_views(a.args@))
    }
}

proof fn lemma_attribute_keys()
    ensures
        "column"@.len() == 6,
        "type"@.len() == 4,
        "auto_increment"@.len() == 14 && "auto_increment"@[0] == 'a',
        "key_generate_type"@.len() == 17,
        "nullable"@.len() == 8,
        "fill_on_update"@.len() == 14 && "fill_on_update"@[0] == 'f' && "fill_on_update"@[8] == 'u',
        "fill_on_insert"@.len() == 14 && "fill_on_insert"@[0] == 'f' && "fill_on_insert"@[8] == 'i',
{
    reveal_strlit("column");
    reveal_strlit("type");
    reveal_strlit("auto_increment");
    reveal_strlit("key_generate_type");
    reveal_strlit("nullable");
    reveal_strlit("fill_on_update");
    reveal_strlit("fill_on_insert");
}

/// What the attributes of a field declare. Without attributes the column is
/// named as the field, its SQL type is "varchar", it is nullable, and it is
/// no key, not auto-incremented, has no key generation and is filled on
/// neither insert nor update. `#[id]` marks the key and makes it not
/// nullable; each argument sets what its key names, in `id` or `field` as
/// the key belongs; an attribute of another kind declares nothing; a known
/// key with a literal of the wrong kind ends the reading, so the arguments
/// after it declare nothing.
pub proof fn law_field_attributes(
    s: DeclState,
    field_name: Seq<char>,
    text: Seq<char>,
    b: bool,
    rest: Seq<(Seq<char>, AttrValueView)>,
    args: Seq<(Seq<char>, AttrValueView)>,
)
    ensures
        apply_attrs(initial_state(field_name), Seq::<FieldAttr>::empty()) == (DeclState {
            column_name: field_name,
            sql_type: "varchar"@,
            is_id: false,
            is_auto_increment: false,
            is_nullable: true,
            key_generate_type: None,
            fill_on_update: false,
            fill_on_insert: false,
        }),
        apply_attr(s, AttrKind::Id, Seq::empty()) == (DeclState { is_id: true, is_nullable: false, ..s }),
        apply_attr(s, AttrKind::Field, Seq::empty()) == s,
        apply_attr(s, AttrKind::Other, args) == s,
        apply_attr(s, AttrKind::Field, seq![("column"@, AttrValueView::Str(text))]) == (DeclState {
            column_name: text,
            ..s
        }),
        apply_attr(s, AttrKind::Field, seq![("type"@, AttrValueView::Str(text))]) == (DeclState { sql_type: text, ..s }),
        apply_attr(s, AttrKind::Field, seq![("nullable"@, AttrValueView::Bool(b))]) == (DeclState {
            is_nullable: b,
            ..s
        }),
        apply_attr(s, AttrKind::Field, seq![("fill_on_update"@, AttrValueView::Bool(b))]) == (DeclState {
            fill_on_update: b,
            ..s
        }),
        apply_attr(s, AttrKind::Field, seq![("fill_on_insert"@, AttrValueView::Bool(b))]) == (DeclState {
            fill_on_insert: b,
            ..s
        }),
        apply_attr(s, AttrKind::Id, seq![("column"@, AttrValueView::Str(text))]) == (DeclState {
            column_name: text,
            is_id: true,
            is_nullable: false,
            ..s
        }),
        apply_attr(s, AttrKind::Id, seq![("auto_increment"@, AttrValueView::Bool(b))]) == (DeclState {
            is_auto_increment: b,
            is_id: true,
            is_nullable: false,
            ..s
        }),
        apply_attr(s, AttrKind::Id, seq![("key_generate_type"@, AttrValueView::Str(text))]) == (DeclState {
            key_generate_type: Some(text),
            is_id: true,
            is_nullable: false,
            ..s
        }),
        apply_args(s, AttrKind::Field, seq![("column"@, AttrValueView::Bool(b))] + rest) == s,
        apply_args(s, AttrKind::Field, seq![("nullable"@, AttrValueView::Str(text))] + rest) == s,
        apply_args(s, AttrKind::Id, seq![("auto_increment"@, AttrValueView::Str(text))] + rest) == s,
        apply_args(s, AttrKind::Id, seq![("nullable"@, AttrValueView::Bool(b))] + rest) == s,
{
    lemma_attribute_keys();
    reveal_strlit("varchar");
    reveal_with_fuel(apply_args, 2);
    assert(seq![("column"@, AttrValueView::Str(text))].skip(1) =~= Seq::<(Seq<char>, AttrValueView)>::empty());
    assert(seq![("type"@, AttrValueView::Str(text))].skip(1) =~= Seq::<(Seq<char>, AttrValueView)>::empty());
    assert(seq![("nullable"@, AttrValueView::Bool(b))].skip(1) =~= Seq::<(Seq<char>, AttrValueView)>::empty());
    assert(seq![("fill_on_update"@, AttrValueView::Bool(b))].skip(1) =~= Seq::<(Seq<char>, AttrValueView)>::empty());
    assert(seq![("fill_on_insert"@, AttrValueView::Bool(b))].skip(1) =~= Seq::<(Seq<char>, AttrValueView)>::empty());
    assert(seq![("auto_increment"@, AttrValueView::Bool(b))].skip(1) =~= Seq::<(Seq<char>, AttrValueView)>::empty());
    assert(seq![("key_generate_type"@, AttrValueView::Str(text))].skip(1) =~= Seq::<(Seq<char>, AttrValueView)>::empty());
    assert((seq![("column"@, AttrValueView::Bool(b))] + rest)[0] == ("column"@, AttrValueView::Bool(b)));
    assert((seq![("nullable"@, AttrValueView::Str(text))] + rest)[0] == ("nullable"@, AttrValueView::Str(text)));
    assert((seq![("auto_increment"@, AttrValueView::Str(text))] + rest)[0] == ("auto_increment"@, AttrValueView::Str(
        text,
    )));
    assert((seq![("nullable"@, AttrValueView::Bool(b))] + rest)[0] == ("nullable"@, AttrValueView::Bool(b)));
}

/// The declaration of one field, read from its name, its type and its
/// attributes.
pub struct FieldDecl {
    pub field_name: String,
    /// The field's type as written, for messages.
    pub type_text: String,
    pub is_option: bool,
    pub column_type: ColumnType,
    pub column_name: String,
    pub sql_type: String,
    pub is_id: bool,
    pub is_auto_increment: bool,
    pub is_nullable: bool,
    pub key_generate_type: Option<String>,
    pub fill_on_update: bool,
    pub fill_on_insert: bool,
}

/// The view of an optional text.
pub open spec fn opt_text(s: Option<String>) -> Option<Seq<char>> {
    match s {
        Some(t) => Some(t@),
        None => None,
    }
}

/// What the attributes of a declared field set.
pub open spec fn decl_state(d: FieldDecl) -> DeclState {
    DeclState {
        column_name: d.column_name@,
        sql_type: d.sql_type@,
        is_id: d.is_id,
        is_auto_increment: d.is_auto_increment,
        is_nullable: d.is_nullable,
        key_generate_type: opt_text(d.key_generate_type),
        fill_on_update: d.fill_on_update,
        fill_on_insert: d.fill_on_insert,
    }
}

/// A state from its parts; the flags are, in order, auto-increment,
/// nullable, filled on update, filled on insert.
pub open spec fn state_of(
    column_name: Seq<char>,
    sql_type: Seq<char>,
    is_id: bool,
    flags: (bool, bool, bool, bool),
    key_generate_type: Option<Seq<char>>,
) -> DeclState {
    DeclState {
        column_name,
        sql_type,
        is_id,
        is_auto_increment: flags.0,
        is_nullable: flags.1,
        key_generate_type,
        fill_on_update: flags.2,
        fill_on_insert: flags.3,
    }
}

fn arg_step_exec(
    column_name: &mut String,
    sql_type: &mut String,
    flags: &mut (bool, bool, bool, bool),
    key_generate_type: &mut Option<String>,
    kind: AttrKind,
    key: &str,
    v: &AttrValue,
    Ghost(is_id): Ghost<bool>,
) -> (ok: bool)
    ensures
        ({
            let s = state_of(old(column_name)@, old(sql_type)@, is_id, *old(flags), opt_text(*old(key_generate_type)));
            let t = state_of(final(column_name)@, final(sql_type)@, is_id, *final(flags), opt_text(*final(key_generate_type)));
            match arg_step(s, kind, key@, v@) {
                Some(u) => ok && t == u,
                None => !ok && t == s,
            }
        }),
{
    if str_equal(key, "column") {
        match v {
            AttrValue::Str(text) => {
                *column_name = text.clone();
                true
            },
            _ => false,
        }
    } else if str_equal(key, "type") {
        match v {
            AttrValue::Str(text) => {
                *sql_type = text.clone();
                true
            },
            _ => false,
        }
    } else if kind == AttrKind::Id && str_equal(key, "auto_increment") {
        match v {
            AttrValue::Bool(b) => {
                flags.0 = *b;
                true
            },
            _ => false,
        }
    } else if kind == AttrKind::Id && str_equal(key, "key_generate_type") {
        match v {
            AttrValue::Str(text) => {
                *key_generate_type = Some(text.clone());
                true
            },
            _ => false,
        }
    } else if kind == AttrKind::Field && str_equal(key, "nullable") {
        match v {
            AttrValue::Bool(b) => {
                flags.1 = *b;
                true
            },
            _ => false,
        }
    } else if kind == AttrKind::Field && str_equal(key, "fill_on_update") {
        match v {
            AttrValue::Bool(b) => {
                flags.2 = *b;
                true
            },
            _ => false,
        }
    } else if kind == AttrKind::Field && str_equal(key, "fill_on_insert") {
        match v {
            AttrValue::Bool(b) => {
                flags.3 = *b;
                true
            },
            _ => false,
        }
    } else {
        match v {
            AttrValue::Absent => true,
            _ => false,
        }
    }
}

fn read_args(
    column_name: &mut String,
    sql_type: &mut String,
    flags: &mut (bool, bool, bool, bool),
    key_generate_type: &mut Option<String>,
    kind: AttrKind,
    args: &Vec<(String, AttrValue)>,
    Ghost(is_id): Ghost<bool>,
)
    ensures
        state_of(final(column_name)@, final(sql_type)@, is_id, *final(flags), opt_text(*final(key_generate_type)))
            == apply_args(
            state_of(old(column_name)@, old(sql_type)@, is_id, *old(flags), opt_text(*old(key_generate_type))),
            kind,
            arg_views(args@),
        ),
{
    let ghost av = arg_views(args@);
    let ghost s0 = state_of(column_name@, sql_type@, is_id, *flags, opt_text(*key_generate_type));
    let mut j: usize = 0;
    proof {
        assert(av.skip(0) =~= av);
    }
    while j < args.len()
        invariant
            j <= args@.len(),
            av == arg_views(args@),
            s0 == state_of(old(column_name)@, old(sql_type)@, is_id, *old(flags), opt_text(*old(key_generate_type))),
            apply_args(s0, kind, av) == apply_args(
                state_of(column_name@, sql_type@, is_id, *flags, opt_text(*key_generate_type)),
                kind,
                av.skip(j as int),
            ),
        decreases args@.len() - j,
    {
        let ghost cur = state_of(column_name@, sql_type@, is_id, *flags, opt_text(*key_generate_type));
        proof {
            assert(av.skip(j as int)[0] == av[j as int]);
            assert(av.skip(j as int).skip(1) =~= av.skip(j + 1));
            assert(av[j as int] == (args@[j as int].0@, args@[j as int].1@));
        }
        let ok = arg_step_exec(
            column_name,
            sql_type,
            flags,
            key_generate_type,
            kind,
            args[j].0.as_str(),
            &args[j].1,
            Ghost(is_id),
        );
        proof {
            let new_state = state_of(column_name@, sql_type@, is_id, *flags, opt_text(*key_generate_type));
            let rest = av.skip(j as int);
            assert(rest.len() > 0);
            if ok {
                assert(apply_args(cur, kind, rest) == apply_args(new_state, kind, av.skip(j + 1)));
            } else {
                assert(apply_args(cur, kind, rest) == cur);
                assert(new_state == cur);
                assert(new_state == apply_args(s0, kind, av));
            }
        }
        if !ok {
            proof {
                assert(s0 == state_of(old(column_name)@, old(sql_type)@, is_id, *old(flags), opt_text(*old(key_generate_type))));
            }
            return;
        }
        j = j + 1;
    }
    proof {
        assert(av.skip(j as int).len() == 0);
    }
}

/// Reads the declaration of a field: its name, its type as written, whether
/// it is an `Option`, the name of its inner type (of the `Option`'s argument
/// where it is one) with whether that is a `Vec<u8>`, and its attributes in
/// order.
pub fn field_decl(
    field_name: &str,
    type_text: &str,
    is_option: bool,
    inner_type_ident: &str,
    inner_vec_of_u8: bool,
    attrs: &Vec<FieldAttr>,
) -> (r: FieldDecl)
    ensures
        r.field_name@ == field_name@,
        r.type_text@ == type_text@,
        r.is_option == is_option,
        r.column_type == column_type_spec(inner_type_ident@, inner_vec_of_u8),
        decl_state(r) == apply_attrs(initial_state(field_name@), attrs@),
{
    let mut column_name = String::from_str(field_name);
    let mut sql_type = String::from_str("varchar");
    let mut is_id = false;
    let mut flags: (bool, bool, bool, bool) = (false, true, false, false);
    let mut key_generate_type: Option<String> = None;
    proof {
        reveal_strlit("varchar");
    }
    let mut i: usize = 0;
    while i < attrs.len()
        invariant
            i <= attrs@.len(),
            state_of(column_name@, sql_type@, is_id, flags, opt_text(key_generate_type)) == apply_attrs(
                initial_state(field_name@),
                attrs@.take(i as int),
            ),
        decreases attrs@.len() - i,
    {
        let a = &attrs[i];
        proof {
            assert(attrs@.take(i + 1).drop_last() =~= attrs@.take(i as int));
            assert(attrs@.take(i + 1).last() == attrs@[i as int]);
        }
        match a.kind {
            AttrKind::Id => {
                is_id = true;
                flags.1 = false;
                read_args(&mut column_name, &mut sql_type, &mut flags, &mut key_generate_type, a.kind, &a.args, Ghost(true));
            },
            AttrKind::Field => {
                read_args(&mut column_name, &mut sql_type, &mut flags, &mut key_generate_type, a.kind, &a.args, Ghost(is_id));
            },
            AttrKind::Other => {},
        }
        i = i + 1;
    }
    proof {
        assert(attrs@.take(attrs@.len() as int) =~= attrs@);
    }
    FieldDecl {
        field_name: String::from_str(field_name),
        type_text: String::from_str(type_text),
        is_option,
        column_type: column_type_of(inner_type_ident, inner_vec_of_u8),
        column_name,
        sql_type,
        is_id,
        is_auto_increment: flags.0,
        is_nullable: flags.1,
        key_generate_type,
        fill_on_update: flags.2,
        fill_on_insert: flags.3,
    }
}

/// A field as declared: its name, its type as written, whether it is an
/// `Option`, the name of its inner type (of the `Option`'s argument where it
/// is one) with whether that is a `Vec<u8>`, and its attributes in order.
pub struct FieldSource {
    pub field_name: String,
    pub type_text: String,
    pub is_option: bool,
    pub inner_type_ident: String,
    pub inner_vec_of_u8: bool,
    pub attrs: Vec<FieldAttr>,
}

/// Whether `d` is what `field_decl` reads from the declared field `src`.
pub open spec fn reads_as(d: FieldDecl, src: FieldSource) -> bool {
    &&& d.field_name@ == src.field_name@
    &&& d.type_text@ == src.type_text@
    &&& d.is_option == src.is_option
    &&& d.column_type == column_type_spec(src.inner_type_ident@, src.inner_vec_of_u8)
    &&& decl_state(d) == apply_attrs(initial_state(src.field_name@), src.attrs@)
}

/// Reads the declarations of the fields of a struct, in order.
pub fn parse_fields(fields: &Vec<FieldSource>) -> (r: Vec<FieldDecl>)
    ensures
        r@.len() == fields@.len(),
        forall|i: int| 0 <= i < fields@.len() ==> reads_as(#[trigger] r@[i], fields@[i]),
{
    let mut r: Vec<FieldDecl> = Vec::new();
    let mut i: usize = 0;
    while i < fields.len()
        invariant
            i <= fields@.len(),
            r@.len() == i,
            forall|j: int| 0 <= j < i ==> reads_as(#[trigger] r@[j], fields@[j]),
        decreases fields@.len() - i,
    {
        let f = &fields[i];
        let d = field_decl(
            f.field_name.as_str(),
            f.type_text.as_str(),
            f.is_option,
            f.inner_type_ident.as_str(),
            f.inner_vec_of_u8,
            &f.attrs,
        );
        r.push(d);
        i = i + 1;
    }
    r
}

/// The message for a field whose type is not an `Option`.
pub open spec fn option_error(f: FieldDecl) -> Seq<char> {
    "Field `"@ + f.field_name@ + "` must be of type `Option<T>`, found `"@ + f.type_text@ + "`"@
}

/// One message for each field that is not an `Option`, in field order.
pub open spec fn option_errors(fields: Seq<FieldDecl>) -> Seq<Seq<char>>
    decreases fields.len(),
{
    if fields.len() == 0 {
        Seq::empty()
    } else if fields.last().is_option {
        option_errors(fields.drop_last())
    } else {
        option_errors(fields.drop_last()).push(option_error(fields.last()))
    }
}

/// Every field must be an `Option`: there is no message exactly when each
/// field is one.
pub proof fn lemma_option_errors_empty(fields: Seq<FieldDecl>)
    ensures
        option_errors(fields).len() == 0 <==> (forall|i: int| 0 <= i < fields.len() ==> #[trigger] fields[i].is_option),
    decreases fields.len(),
{
    if fields.len() > 0 {
        lemma_option_errors_empty(fields.drop_last());
        assert forall|i: int| 0 <= i < fields.len() - 1 implies fields.drop_last()[i] == #[trigger] fields[i] by {}
    }
}

fn option_error_text(f: &FieldDecl) -> (r: String)
    ensures
        r@ == option_error(*f),
{
    let head = concat3("Field `", f.field_name.as_str(), "` must be of type `Option<T>`, found `");
    concat3(head.as_str(), f.type_text.as_str(), "`")
}

/// The messages of the fields that are not `Option`s, in field order.
pub fn option_error_list(fields: &Vec<FieldDecl>) -> (r: Vec<String>)
    ensures
        string_views(r@) == option_errors(fields@),
{
    let mut errs: Vec<String> = Vec::new();
    let mut i: usize = 0;
    while i < fields.len()
        invariant
            i <= fields@.len(),
            string_views(errs@) == option_errors(fields@.take(i as int)),
        decreases fields@.len() - i,
    {
        proof {
            assert(fields@.take(i + 1).drop_last() =~= fields@.take(i as int));
            assert(fields@.take(i + 1).last() == fields@[i as int]);
        }
        if !fields[i].is_option {
            let ghost before = errs@;
            let m = option_error_text(&fields[i]);
            errs.push(m);
            proof {
                assert(string_views(errs@) =~= string_views(before).push(m@));
            }
        }
        i = i + 1;
    }
    proof {
        assert(fields@.take(fields@.len() as int) =~= fields@);
    }
    errs
}

/// Whether some field is marked `#[id]`.
pub open spec fn has_id(fields: Seq<FieldDecl>) -> bool {
    exists|j: int| 0 <= j < fields.len() && #[trigger] fields[j].is_id
}

/// Whether `k` is the first field marked `#[id]`.
pub open spec fn is_first_id(fields: Seq<FieldDecl>, k: int) -> bool {
    &&& 0 <= k < fields.len()
    &&& fields[k].is_id
    &&& forall|j: int| 0 <= j < k ==> !#[trigger] fields[j].is_id
}

/// The position of the first field marked `#[id]`, if any.
pub fn first_id_index(fields: &Vec<FieldDecl>) -> (r: Option<usize>)
    ensures
        match r {
            Some(k) => is_first_id(fields@, k as int),
            None => !has_id(fields@),
        },
{
    let mut i: usize = 0;
    while i < fields.len()
        invariant
            i <= fields@.len(),
            forall|j: int| 0 <= j < i ==> !#[trigger] fields@[j].is_id,
        decreases fields@.len() - i,
    {
        if fields[i].is_id {
            return Some(i);
        }
        i = i + 1;
    }
    None
}

/// The description of one mapped column.
pub struct ColumnDescription {
    pub field_name: String,
    pub column_name: String,
    pub column_type: ColumnType,
    pub fill_on_update: bool,
    pub fill_on_insert: bool,
    pub is_primary_key: bool,
    pub is_nullable: bool,
    pub is_auto_increment: bool,
    pub key_generate_type: KeyGenerateType,
}

/// The key generation an optional text names; none when absent.
pub open spec fn key_type_opt(text: Option<Seq<char>>) -> KeyGenerateType {
    match text {
        Some(t) => key_type_of(t),
        None => KeyGenerateType::NotGenerated,
    }
}

/// Whether `c` describes the column of the declared field `f`.
pub open spec fn describes(c: ColumnDescription, f: FieldDecl) -> bool {
    &&& c.field_name@ == f.field_name@
    &&& c.column_name@ == f.column_name@
    &&& c.column_type == f.column_type
    &&& c.fill_on_update == f.fill_on_update
    &&& c.fill_on_insert == f.fill_on_insert
    &&& c.is_primary_key == f.is_id
    &&& c.is_nullable == f.is_nullable
    &&& c.is_auto_increment == f.is_auto_increment
    &&& c.key_generate_type == key_type_opt(opt_text(f.key_generate_type))
}

/// The column a declared field is mapped to.
pub fn column_description(f: &FieldDecl) -> (r: ColumnDescription)
    ensures
        describes(r, *f),
{
    let key_generate_type = match &f.key_generate_type {
        Some(t) => KeyGenerateType::from_text(t.as_str()),
        None => KeyGenerateType::NotGenerated,
    };
    ColumnDescription {
        field_name: f.field_name.clone(),
        column_name: f.column_name.clone(),
        column_type: f.column_type,
        fill_on_update: f.fill_on_update,
        fill_on_insert: f.fill_on_insert,
        is_primary_key: f.is_id,
        is_nullable: f.is_nullable,
        is_auto_increment: f.is_auto_increment,
        key_generate_type,
    }
}

/// Whether `cs` describes the columns of `fields`, one for each, in order.
pub open spec fn describes_all(cs: Seq<ColumnDescription>, fields: Seq<FieldDecl>) -> bool {
    &&& cs.len() == fields.len()
    &&& forall|i: int| 0 <= i < fields.len() ==> describes(#[trigger] cs[i], fields[i])
}

/// The columns of the declared fields, in field order.
pub fn column_descriptions(fields: &Vec<FieldDecl>) -> (r: Vec<ColumnDescription>)
    ensures
        describes_all(r@, fields@),
{
    let mut cs: Vec<ColumnDescription> = Vec::new();
    let mut i: usize = 0;
    while i < fields.len()
        invariant
            i <= fields@.len(),
            cs@.len() == i,
            forall|j: int| 0 <= j < i ==> describes(#[trigger] cs@[j], fields@[j]),
        decreases fields@.len() - i,
    {
        let c = column_description(&fields[i]);
        cs.push(c);
        i = i + 1;
    }
    cs
}

/// The upper-case form that `str::to_uppercase` gives of a text.
pub uninterp spec fn uppercase(s: Seq<char>) -> Seq<char>;

/// `str::to_uppercase`: its result is named by `uppercase` and nothing more
/// of it is stated.
#[verifier::external_body]
fn str_to_uppercase(s: &str) -> (r: String)
    ensures
        r@ == uppercase(s@),
{
    s.to_uppercase()
}

/// For each declared field, in order, the constant that names its column:
/// the constant's name (the column name in upper case) and its value (the
/// column name).
pub fn column_constants(fields: &Vec<FieldDecl>) -> (r: Vec<(String, String)>)
    ensures
        r@.len() == fields@.len(),
        forall|i: int| 0 <= i < fields@.len() ==> (#[trigger] r@[i]).0@ == uppercase(fields@[i].column_name@)
            && r@[i].1@ == fields@[i].column_name@,
{
    let mut r: Vec<(String, String)> = Vec::new();
    let mut i: usize = 0;
    while i < fields.len()
        invariant
            i <= fields@.len(),
            r@.len() == i,
            forall|j: int| 0 <= j < i ==> (#[trigger] r@[j]).0@ == uppercase(fields@[j].column_name@)
                && r@[j].1@ == fields@[j].column_name@,
        decreases fields@.len() - i,
    {
        let upper = str_to_uppercase(fields[i].column_name.as_str());
        r.push((upper, fields[i].column_name.clone()));
        i = i + 1;
    }
    r
}

/// The field names of the declared fields, in order.
pub open spec fn field_names_of(fields: Seq<FieldDecl>) -> Seq<Seq<char>> {
    fields.map_values(|f: FieldDecl| f.field_name@)
}

/// The column names of the declared fields, in order.
pub open spec fn column_names_of(fields: Seq<FieldDecl>) -> Seq<Seq<char>> {
    fields.map_values(|f: FieldDecl| f.column_name@)
}

/// The field names and the column names of the declared fields, in order.
pub fn name_lists(fields: &Vec<FieldDecl>) -> (r: (Vec<String>, Vec<String>))
    ensures
        string_views(r.0@) == field_names_of(fields@),
        string_views(r.1@) == column_names_of(fields@),
{
    let mut field_names: Vec<String> = Vec::new();
    let mut column_names: Vec<String> = Vec::new();
    let mut i: usize = 0;
    while i < fields.len()
        invariant
            i <= fields@.len(),
            string_views(field_names@) == field_names_of(fields@.take(i as int)),
            string_views(column_names@) == column_names_of(fields@.take(i as int)),
        decreases fields@.len() - i,
    {
        let ghost (fb, cb) = (field_names@, column_names@);
        let f = fields[i].field_name.clone();
        let c = fields[i].column_name.clone();
        field_names.push(f);
        column_names.push(c);
        proof {
            assert(fields@.take(i + 1) =~= fields@.take(i as int).push(fields@[i as int]));
            assert(string_views(field_names@) =~= string_views(fb).push(f@));
            assert(string_views(column_names@) =~= string_views(cb).push(c@));
            assert(field_names_of(fields@.take(i + 1)) =~= field_names_of(fields@.take(i as int)).push(fields@[i as int].field_name@));
            assert(column_names_of(fields@.take(i + 1)) =~= column_names_of(fields@.take(i as int)).push(fields@[i as int].column_name@));
        }
        i = i + 1;
    }
    proof {
        assert(fields@.take(fields@.len() as int) =~= fields@);
    }
    (field_names, column_names)
}

/// What a mapping declaration describes: its field and column names.
pub struct MappingDescription {
    pub field_names: Vec<String>,
    pub column_names: Vec<String>,
}

/// Reads a mapping declaration: every field must be an `Option`, else the
/// answer is one message per other field, in field order.
pub fn mapping_description(fields: &Vec<FieldDecl>) -> (r: Result<MappingDescription, Vec<String>>)
    ensures
        option_errors(fields@).len() > 0 ==> (r matches Err(es) && string_views(es@) == option_errors(fields@)),
        option_errors(fields@).len() == 0 ==> (r matches Ok(d) && string_views(d.field_names@) == field_names_of(fields@)
            && string_views(d.column_names@) == column_names_of(fields@)),
{
    let errs = option_error_list(fields);
    if errs.len() > 0 {
        return Err(errs);
    }
    let (field_names, column_names) = name_lists(fields);
    Ok(MappingDescription { field_names, column_names })
}

/// The table name of an entity without a `table` name: "t_" and the
/// lower-case struct name.
pub open spec fn default_table_name(struct_name: Seq<char>) -> Seq<char> {
    "t_"@ + lowercase(struct_name)
}

/// The table name of an entity: the name its `table` attribute gives, else
/// the default one.
pub open spec fn table_name_of(struct_name: Seq<char>, table_attr: Option<Seq<char>>) -> Seq<char> {
    match table_attr {
        Some(t) => t,
        None => default_table_name(struct_name),
    }
}

/// What an entity declaration describes.
pub struct EntityDescription {
    pub table_name: String,
    /// The field and the column of the key.
    pub key_field: String,
    pub key_column: String,
    pub key_info: ColumnDescription,
    pub field_names: Vec<String>,
    pub column_names: Vec<String>,
    pub columns: Vec<ColumnDescription>,
}

/// Whether `d` is what the declaration of `struct_name` with these fields
/// describes, its key being its first `#[id]` field.
pub open spec fn describes_entity(
    d: EntityDescription,
    struct_name: Seq<char>,
    table_attr: Option<Seq<char>>,
    fields: Seq<FieldDecl>,
) -> bool {
    &&& d.table_name@ == table_name_of(struct_name, table_attr)
    &&& string_views(d.field_names@) == field_names_of(fields)
    &&& string_views(d.column_names@) == column_names_of(fields)
    &&& describes_all(d.columns@, fields)
    &&& forall|k: int| #[trigger] is_first_id(fields, k) ==> {
        &&& d.key_field@ == fields[k].field_name@
        &&& d.key_column@ == fields[k].column_name@
        &&& describes(d.key_info, fields[k])
    }
}

/// The message of an entity without a key.
pub open spec fn missing_id_error() -> Seq<char> {
    "One field must be marked with #[id]"@
}

/// The texts of a declaration: an entity without a `table` name is stored
/// in "t_" and its lower-case struct name, one with a name in that name; a
/// field that is not an `Option` is reported with its name and its type as
/// written; an entity without a key is reported as such. A key generation
/// is named in any case: "auto_increment", "uuid", "use_generated_keys" and
/// "sequence", and any other name or none means none.
pub proof fn law_declaration_texts(struct_name: Seq<char>, table: Seq<char>, f: FieldDecl)
    ensures
        table_name_of(struct_name, None) == "t_"@ + lowercase(struct_name),
        table_name_of(struct_name, Some(table)) == table,
        option_error(f) == "Field `"@ + f.field_name@ + "` must be of type `Option<T>`, found `"@ + f.type_text@ + "`"@,
        missing_id_error() == "One field must be marked with #[id]"@,
        key_type_opt(None) == KeyGenerateType::NotGenerated,
        key_type_opt(Some(table)) == key_type_of(table),
        crate::base::entity::key_type_of_lowercase("auto_increment"@) == KeyGenerateType::AutoIncrement,
        crate::base::entity::key_type_of_lowercase("uuid"@) == KeyGenerateType::UUID,
        crate::base::entity::key_type_of_lowercase("use_generated_keys"@) == KeyGenerateType::UseGeneratedKeys,
        crate::base::entity::key_type_of_lowercase("sequence"@) == KeyGenerateType::Sequence,
        crate::base::entity::key_type_of_lowercase("none"@) == KeyGenerateType::NotGenerated,
        key_type_of(table) == crate::base::entity::key_type_of_lowercase(lowercase(table)),
{
    reveal_strlit("auto_increment");
    reveal_strlit("uuid");
    reveal_strlit("use_generated_keys");
    reveal_strlit("sequence");
    reveal_strlit("none");
    assert("auto_increment"@.len() == 14 && "uuid"@.len() == 4 && "use_generated_keys"@.len() == 18);
    assert("sequence"@.len() == 8 && "none"@.len() == 4 && "uuid"@[0] != "none"@[0]);
}

/// Reads an entity declaration: its struct name, the name its `table`
/// attribute gives, if any, and its fields in order. Every field must be an
/// `Option` (else one message per other field, in field order), and one
/// must be marked `#[id]`; the first such is the key.
pub fn entity_description(struct_name: &str, table_attr: Option<String>, fields: &Vec<FieldDecl>) -> (r: Result<EntityDescription, Vec<String>>)
    ensures
        option_errors(fields@).len() > 0 ==> (r matches Err(es) && string_views(es@) == option_errors(fields@)),
        option_errors(fields@).len() == 0 && !has_id(fields@) ==> (r matches Err(es) && string_views(es@) == seq![missing_id_error()]),
        option_errors(fields@).len() == 0 && has_id(fields@) ==> (r matches Ok(d) && describes_entity(d, struct_name@, opt_text(table_attr), fields@)),
{
    let errs = option_error_list(fields);
    if errs.len() > 0 {
        return Err(errs);
    }
    let k = match first_id_index(fields) {
        Some(k) => k,
        None => {
            let mut es: Vec<String> = Vec::new();
            es.push(String::from_str("One field must be marked with #[id]"));
            proof {
                assert(string_views(es@) =~= seq![missing_id_error()]);
            }
            return Err(es);
        },
    };
    let table_name = match table_attr {
        Some(t) => t,
        None => {
            let lower = str_to_lowercase(struct_name);
            concat2("t_", lower.as_str())
        },
    };
    let (field_names, column_names) = name_lists(fields);
    let columns = column_descriptions(fields);
    let key_info = column_description(&fields[k]);
    let d = EntityDescription {
        table_name,
        key_field: fields[k].field_name.clone(),
        key_column: fields[k].column_name.clone(),
        key_info,
        field_names,
        column_names,
        columns,
    };
    proof {
        assert forall|k2: int| #[trigger] is_first_id(fields@, k2) implies k2 == k as int by {
            if k2 < k as int {
                assert(!fields@[k2].is_id);
            } else if k2 > k as int {
                assert(!fields@[k as int].is_id);
            }
        }
    }
    Ok(d)
}

/// What the `table` attributes of an entity set: the table name, if any,
/// and whether names are case sensitive.
pub struct TableState {
    pub name: Option<Seq<char>>,
    pub case_sensitive: bool,
}

/// One argument of a `table` attribute read: `case_sensitive` takes a
/// boolean; `name` takes a string, and a literal of another kind there is
/// passed over. Anything else (a key without its literal, another key) ends
/// the reading.
pub open spec fn table_step(s: TableState, key: Seq<char>, v: AttrValueView) -> Option<TableState> {
    if key == "case_sensitive"@ {
        if v is Bool {
            Some(TableState { case_sensitive: v->Bool_0, ..s })
        } else {
            None
        }
    } else if key == "name"@ {
        if v is Str {
            Some(TableState { name: Some(v->Str_0), ..s })
        } else if v is Absent {
            None
        } else {
            Some(s)
        }
    } else {
        None
    }
}

/// The arguments of a `table` attribute read in order, up to the first that
/// ends the reading.
pub open spec fn apply_table_args(s: TableState, args: Seq<(Seq<char>, AttrValueView)>) -> TableState
    decreases args.len(),
{
    if args.len() == 0 {
        s
    } else {
        match table_step(s, args[0].0, args[0].1) {
            Some(t) => apply_table_args(t, args.skip(1)),
            None => s,
        }
    }
}

/// The `table` attributes read in order, from no name and case-insensitive
/// names.
pub open spec fn apply_table_attrs(attrs: Seq<Vec<(String, AttrValue)>>) -> TableState
    decreases attrs.len(),
{
    if attrs.len() == 0 {
        TableState { name: None, case_sensitive: false }
    } else {
        apply_table_args(apply_table_attrs(attrs.drop_last()), arg_views(attrs.last()@))
    }
}

fn read_table_args(name: &mut Option<String>, case_sensitive: &mut bool, args: &Vec<(String, AttrValue)>)
    ensures
        (TableState { name: opt_text(*final(name)), case_sensitive: *final(case_sensitive) }) == apply_table_args(
            TableState { name: opt_text(*old(name)), case_sensitive: *old(case_sensitive) },
            arg_views(args@),
        ),
{
    let ghost av = arg_views(args@);
    let ghost s0 = TableState { name: opt_text(*name), case_sensitive: *case_sensitive };
    proof {
        reveal_strlit("case_sensitive");
        reveal_strlit("name");
        assert("case_sensitive"@.len() == 14 && "name"@.len() == 4);
        assert(av.skip(0) =~= av);
    }
    let mut j: usize = 0;
    while j < args.len()
        invariant
            j <= args@.len(),
            av == arg_views(args@),
            s0 == (TableState { name: opt_text(*old(name)), case_sensitive: *old(case_sensitive) }),
            apply_table_args(s0, av) == apply_table_args(
                TableState { name: opt_text(*name), case_sensitive: *case_sensitive },
                av.skip(j as int),
            ),
        decreases args@.len() - j,
    {
        proof {
            assert(av.skip(j as int)[0] == av[j as int]);
            assert(av.skip(j as int).skip(1) =~= av.skip(j + 1));
            assert(av[j as int] == (args@[j as int].0@, args@[j as int].1@));
        }
        let key = args[j].0.as_str();
        if str_equal(key, "case_sensitive") {
            match &args[j].1 {
                AttrValue::Bool(b) => {
                    *case_sensitive = *b;
                },
                _ => {
                    return;
                },
            }
        } else if str_equal(key, "name") {
            match &args[j].1 {
                AttrValue::Str(t) => {
                    *name = Some(t.clone());
                },
                AttrValue::Absent => {
                    return;
                },
                _ => {},
            }
        } else {
            return;
        }
        j = j + 1;
    }
    proof {
        assert(av.skip(j as int).len() == 0);
    }
}

/// Reads the `table` attributes of an entity, each given by its arguments
/// in order: the table name they give, if any, and whether names are case
/// sensitive.
pub fn table_info(attrs: &Vec<Vec<(String, AttrValue)>>) -> (r: (Option<String>, bool))
    ensures
        (TableState { name: opt_text(r.0), case_sensitive: r.1 }) == apply_table_attrs(attrs@),
{
    let mut name: Option<String> = None;
    let mut case_sensitive = false;
    let mut i: usize = 0;
    while i < attrs.len()
        invariant
            i <= attrs@.len(),
            (TableState { name: opt_text(name), case_sensitive }) == apply_table_attrs(attrs@.take(i as int)),
        decreases attrs@.len() - i,
    {
        proof {
            assert(attrs@.take(i + 1).drop_last() =~= attrs@.take(i as int));
            assert(attrs@.take(i + 1).last() == attrs@[i as int]);
        }
        read_table_args(&mut name, &mut case_sensitive, &attrs[i]);
        i = i + 1;
    }
    proof {
        assert(attrs@.take(attrs@.len() as int) =~= attrs@);
    }
    (name, case_sensitive)
}

} // verus!
