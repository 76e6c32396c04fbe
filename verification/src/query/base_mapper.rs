//! The decisions a mapper makes before it inserts a row: how the key of the
//! row is produced, and the text of a generated key.
use vstd::prelude::*;
use crate::base::entity::{ColumnInfo, Entity, KeyGenerateType};
use crate::base::param::{ParamValue, ParamValueView};

verus! {

/// How an insert goes, by the description of the key column.
#[derive(Clone, Copy, Debug)]
pub enum InsertPlan {
    /// No key column is described: the row is inserted as it stands, and the
    /// insert then fails for want of a key description.
    InsertWithoutKeyInfo,
    /// The key is generated by the database and read back after the insert.
    InsertAndReadKey,
    /// A fresh UUID is written into this key column before the insert, and
    /// is the key.
    InsertWithUuid(&'static str),
    /// The key is neither generated by the database nor a UUID but given
    /// with the row: the row is inserted as it stands.
    PlainInsert,
}

/// The plan for a key column description.
pub open spec fn insert_plan(key_info: Option<ColumnInfo>) -> InsertPlan {
    match key_info {
        None => InsertPlan::InsertWithoutKeyInfo,
        Some(k) => if k.is_auto_increment {
            InsertPlan::InsertAndReadKey
        } else if k.key_generate_type == KeyGenerateType::UUID {
            InsertPlan::InsertWithUuid(k.column_name)
        } else {
            InsertPlan::PlainInsert
        },
    }
}

/// How a row is inserted, by its key column: without a key description the
/// key cannot be planned; an auto-increment key is generated by the
/// database and read back, whatever its key generation says; otherwise a
/// UUID key is written into the key column first; any other key is given
/// with the row.
pub proof fn law_insert_plan(k: ColumnInfo)
    ensures
        insert_plan(None) == InsertPlan::InsertWithoutKeyInfo,
        k.is_auto_increment ==> insert_plan(Some(k)) == InsertPlan::InsertAndReadKey,
        !k.is_auto_increment && k.key_generate_type == KeyGenerateType::UUID ==> insert_plan(Some(k))
            == InsertPlan::InsertWithUuid(k.column_name),
        !k.is_auto_increment && k.key_generate_type != KeyGenerateType::UUID ==> insert_plan(Some(k))
            == InsertPlan::PlainInsert,
{
}

/// The plan of an insert of a row of `E`.
pub fn plan_insert<E: Entity>() -> (r: InsertPlan)
    ensures
        r == insert_plan(E::spec_key_info()),
{
    match E::key_info() {
        None => InsertPlan::InsertWithoutKeyInfo,
        Some(k) => if k.is_auto_increment {
            InsertPlan::InsertAndReadKey
        } else if k.key_generate_type == KeyGenerateType::UUID {
            InsertPlan::InsertWithUuid(k.column_name)
        } else {
            InsertPlan::PlainInsert
        },
    }
}

/// Whether `c` is a lower-case hexadecimal digit.
pub open spec fn is_lower_hex(c: char) -> bool {
    ('0' <= c && c <= '9') || ('a' <= c && c <= 'f')
}

/// The hyphenated text of a UUID: 36 characters, with '-' at positions 8,
/// 13, 18 and 23 and lower-case hexadecimal digits elsewhere.
pub open spec fn is_uuid_text(s: Seq<char>) -> bool {
    &&& s.len() == 36
    &&& forall|i: int| 0 <= i < 36 ==> if i == 8 || i == 13 || i == 18 || i == 23 {
        s[i] == '-'
    } else {
        is_lower_hex(#[trigger] s[i])
    }
}

/// The text of a random (version 4, RFC 4122 variant) UUID: '4' at position
/// 14, and one of '8', '9', 'a', 'b' at position 19.
pub open spec fn is_uuid_v4_text(s: Seq<char>) -> bool {
    &&& is_uuid_text(s)
    &&& s[14] == '4'
    &&& (s[19] == '8' || s[19] == '9' || s[19] == 'a' || s[19] == 'b')
}

/// `uuid::Uuid::new_v4`, shown by its `Display`. The value is random, so
/// only its shape is stated: the hyphenated lower-case text of a version 4
/// UUID.
#[verifier::external_body]
fn new_uuid_text() -> (r: String)
    ensures
        is_uuid_v4_text(r@),
{
    uuid::Uuid::new_v4().to_string()
}

/// The text without its '-' characters.
pub open spec fn without_hyphens(s: Seq<char>) -> Seq<char>
    decreases s.len(),
{
    if s.len() == 0 {
        s
    } else if s.last() == '-' {
        without_hyphens(s.drop_last())
    } else {
        without_hyphens(s.drop_last()).push(s.last())
    }
}

/// The text without its '-' characters.
pub fn strip_hyphens(s: &str) -> (r: String)
    ensures
        r@ == without_hyphens(s@),
{
    let n = s.unicode_len();
    let mut r = String::new();
    let mut i: usize = 0;
    while i < n
        invariant
            n == s@.len(),
            i <= n,
            r@ == without_hyphens(s@.take(i as int)),
        decreases n - i,
    {
        let c = s.get_char(i);
        proof {
            assert(s@.take(i + 1).drop_last() =~= s@.take(i as int));
            assert(s@.take(i + 1).last() == c);
        }
        if c != '-' {
            let mut one = String::new();
            one.append(s.substring_char(i, i + 1));
            proof {
                assert(s@.subrange(i as int, i + 1) =~= seq![c]);
            }
            let ghost r0 = r@;
            r.append(one.as_str());
            proof {
                assert(r@ =~= r0.push(c));
            }
        }
        i = i + 1;
    }
    proof {
        assert(s@.take(n as int) =~= s@);
    }
    r
}

/// A fresh key: the text of a random UUID without its hyphens.
pub fn uuid_key_text() -> (r: String)
    ensures
        exists|u: Seq<char>| is_uuid_v4_text(u) && r@ == without_hyphens(u),
{
    let u = new_uuid_text();
    let r = strip_hyphens(u.as_str());
    proof {
        assert(is_uuid_v4_text(u@) && r@ == without_hyphens(u@));
    }
    r
}

/// Writes a fresh UUID key, as text, into the column `column` of `e` and
/// gives it back. Where that column holds text, it then reads the key; every
/// other column is unchanged.
pub fn assign_uuid_key<E: Entity>(e: &mut E, column: &'static str) -> (r: String)
    ensures
        exists|u: Seq<char>| is_uuid_v4_text(u) && r@ == without_hyphens(u),
        E::column_accepts(column@, ParamValueView::String(r@)) ==> final(e).spec_value_by_column(column@)
            == ParamValueView::String(r@),
        forall|c: Seq<char>| c != column@ ==> #[trigger] final(e).spec_value_by_column(c)
            == old(e).spec_value_by_column(c),
{
    let key = uuid_key_text();
    e.set_value_by_column_name(column, ParamValue::String(key.clone()));
    key
}

} // verus!
