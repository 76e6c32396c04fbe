//! The `where` clause of a query: the text of each condition, the values it
//! binds, and the recursive rendering of a condition tree.
use vstd::prelude::*;
use crate::base::param::{ParamValue, ParamValueView, param_views, param_text, clone_params};
use crate::query::query::{QueryItem, QueryItemGroup, QueryItemNode, QueryRelation, relation_text};
use crate::util::text::{join, join_text, placeholders, placeholder_list, string_views, concat2, concat3};

verus! {

/// The text of one condition.
pub open spec fn item_text<'a>(item: QueryItem<'a>) -> Seq<char> {
    match item {
        QueryItem::Eq(c, _) => c@ + " = ?"@,
        QueryItem::Ne(c, _) => c@ + " != ?"@,
        QueryItem::Lt(c, _) => c@ + " < ?"@,
        QueryItem::Le(c, _) => c@ + " <= ?"@,
        QueryItem::Gt(c, _) => c@ + " > ?"@,
        QueryItem::Ge(c, _) => c@ + " >= ?"@,
        QueryItem::Between(c, _, _) => c@ + " between ? and ?"@,
        QueryItem::Like(c, _) => c@ + " like ?"@,
        QueryItem::LikeLeft(c, _) => c@ + " like ?"@,
        QueryItem::LikeRight(c, _) => c@ + " like ?"@,
        QueryItem::NotLike(c, _) => c@ + " not like ?"@,
        QueryItem::NotLikeLeft(c, _) => c@ + " not like ?"@,
        QueryItem::NotLikeRight(c, _) => c@ + " not like ?"@,
        QueryItem::In(c, v) => c@ + " in ("@ + placeholders(v@.len()) + ")"@,
        QueryItem::InSql(c, s) => c@ + " in ("@ + s@ + ")"@,
        QueryItem::NotIn(c, v) => c@ + " not in ("@ + placeholders(v@.len()) + ")"@,
        QueryItem::NotInSql(c, s) => c@ + " not in ("@ + s@ + ")"@,
        QueryItem::IsNotNull(c) => c@ + " is not null"@,
        QueryItem::IsNull(c) => c@ + " is null"@,
        QueryItem::ApplySql(s, _) => s@,
        QueryItem::ExistsSql(s, _) => "exists ("@ + s@ + ")"@,
        QueryItem::NotExistsSql(s, _) => "not exists ("@ + s@ + ")"@,
    }
}

/// A text pattern bound for a `like`: the value's text with `%` before
/// and/or after it.
pub open spec fn pattern(before: bool, v: ParamValueView, after: bool) -> ParamValueView {
    ParamValueView::String(
        (if before { "%"@ } else { Seq::empty() }) + param_text(v) + (if after { "%"@ } else { Seq::empty() }),
    )
}

/// The values one condition binds, in the order of its placeholders.
pub open spec fn item_params<'a>(item: QueryItem<'a>) -> Seq<ParamValueView> {
    match item {
        QueryItem::Eq(_, v) => seq![v@],
        QueryItem::Ne(_, v) => seq![v@],
        QueryItem::Lt(_, v) => seq![v@],
        QueryItem::Le(_, v) => seq![v@],
        QueryItem::Gt(_, v) => seq![v@],
        QueryItem::Ge(_, v) => seq![v@],
        QueryItem::Between(_, a, b) => seq![a@, b@],
        QueryItem::Like(_, v) => seq![pattern(true, v@, true)],
        QueryItem::LikeLeft(_, v) => seq![pattern(true, v@, false)],
        QueryItem::LikeRight(_, v) => seq![pattern(false, v@, true)],
        QueryItem::NotLike(_, v) => seq![pattern(true, v@, true)],
        QueryItem::NotLikeLeft(_, v) => seq![pattern(true, v@, false)],
        QueryItem::NotLikeRight(_, v) => seq![pattern(false, v@, true)],
        QueryItem::In(_, v) => param_views(v@),
        QueryItem::NotIn(_, v) => param_views(v@),
        QueryItem::ApplySql(_, v) => param_views(v@),
        QueryItem::ExistsSql(_, v) => param_views(v@),
        QueryItem::NotExistsSql(_, v) => param_views(v@),
        QueryItem::InSql(_, _) => Seq::empty(),
        QueryItem::NotInSql(_, _) => Seq::empty(),
        QueryItem::IsNotNull(_) => Seq::empty(),
        QueryItem::IsNull(_) => Seq::empty(),
    }
}

/// What stands between two nodes of a group: the relation's keyword with
/// one more space on each side.
pub open spec fn relation_sep(r: QueryRelation) -> Seq<char> {
    " "@ + relation_text(r) + " "@
}

/// The text of a node: a condition, or a nested group in parentheses.
pub open spec fn node_text<'a>(n: QueryItemNode<'a>) -> Seq<char>
    decreases n,
{
    match n {
        QueryItemNode::Item(item) => item_text(item),
        QueryItemNode::ItemGroup(g) => "("@ + join_text(
            nodes_texts(g.query_item_nodes@),
            relation_sep(g.relation_type),
        ) + ")"@,
    }
}

/// The texts of a sequence of nodes.
pub open spec fn nodes_texts<'a>(nodes: Seq<QueryItemNode<'a>>) -> Seq<Seq<char>>
    decreases nodes,
{
    if nodes.len() == 0 {
        Seq::empty()
    } else {
        nodes_texts(nodes.drop_last()).push(node_text(nodes.last()))
    }
}

/// The values a node binds.
pub open spec fn node_params<'a>(n: QueryItemNode<'a>) -> Seq<ParamValueView>
    decreases n,
{
    match n {
        QueryItemNode::Item(item) => item_params(item),
        QueryItemNode::ItemGroup(g) => nodes_params(g.query_item_nodes@),
    }
}

/// The values a sequence of nodes binds, in order.
pub open spec fn nodes_params<'a>(nodes: Seq<QueryItemNode<'a>>) -> Seq<ParamValueView>
    decreases nodes,
{
    if nodes.len() == 0 {
        Seq::empty()
    } else {
        nodes_params(nodes.drop_last()) + node_params(nodes.last())
    }
}

/// The text of a group: the texts of its nodes joined by its relation.
pub open spec fn group_text<'a>(g: QueryItemGroup<'a>) -> Seq<char> {
    join_text(nodes_texts(g.query_item_nodes@), relation_sep(g.relation_type))
}

/// The values a group binds, in the order of its placeholders.
pub open spec fn group_params<'a>(g: QueryItemGroup<'a>) -> Seq<ParamValueView> {
    nodes_params(g.query_item_nodes@)
}

/// What each condition on column `c` writes and binds: comparisons write
/// their operator and bind the value; `between` binds both ends in order;
/// `like` forms bind the value's text with `%` on the side(s) they match
/// loosely (both for `like`/`not like`, before for the "left" forms, after
/// for the "right" forms); `in` lists write one placeholder per value and
/// bind them in order; `in`/`exists` with SQL embed it; null tests bind
/// nothing.
pub proof fn law_condition_texts<'a>(c: &'a str, v: ParamValue, w: ParamValue, vs: Vec<ParamValue>, sql: String)
    ensures
        item_text(QueryItem::Eq(c, v)) == c@ + " = ?"@ && item_params(QueryItem::Eq(c, v)) == seq![v@],
        item_text(QueryItem::Ne(c, v)) == c@ + " != ?"@ && item_params(QueryItem::Ne(c, v)) == seq![v@],
        item_text(QueryItem::Lt(c, v)) == c@ + " < ?"@ && item_params(QueryItem::Lt(c, v)) == seq![v@],
        item_text(QueryItem::Le(c, v)) == c@ + " <= ?"@ && item_params(QueryItem::Le(c, v)) == seq![v@],
        item_text(QueryItem::Gt(c, v)) == c@ + " > ?"@ && item_params(QueryItem::Gt(c, v)) == seq![v@],
        item_text(QueryItem::Ge(c, v)) == c@ + " >= ?"@ && item_params(QueryItem::Ge(c, v)) == seq![v@],
        item_text(QueryItem::Between(c, v, w)) == c@ + " between ? and ?"@,
        item_params(QueryItem::Between(c, v, w)) == seq![v@, w@],
        item_text(QueryItem::Like(c, v)) == c@ + " like ?"@,
        item_params(QueryItem::Like(c, v)) == seq![ParamValueView::String("%"@ + param_text(v@) + "%"@)],
        item_text(QueryItem::LikeLeft(c, v)) == c@ + " like ?"@,
        item_params(QueryItem::LikeLeft(c, v)) == seq![ParamValueView::String("%"@ + param_text(v@))],
        item_text(QueryItem::LikeRight(c, v)) == c@ + " like ?"@,
        item_params(QueryItem::LikeRight(c, v)) == seq![ParamValueView::String(param_text(v@) + "%"@)],
        item_text(QueryItem::NotLike(c, v)) == c@ + " not like ?"@,
        item_params(QueryItem::NotLike(c, v)) == seq![ParamValueView::String("%"@ + param_text(v@) + "%"@)],
        item_text(QueryItem::NotLikeLeft(c, v)) == c@ + " not like ?"@,
        item_params(QueryItem::NotLikeLeft(c, v)) == seq![ParamValueView::String("%"@ + param_text(v@))],
        item_text(QueryItem::NotLikeRight(c, v)) == c@ + " not like ?"@,
        item_params(QueryItem::NotLikeRight(c, v)) == seq![ParamValueView::String(param_text(v@) + "%"@)],
        item_text(QueryItem::In(c, vs)) == c@ + " in ("@ + placeholders(vs@.len()) + ")"@,
        item_params(QueryItem::In(c, vs)) == param_views(vs@),
        item_text(QueryItem::NotIn(c, vs)) == c@ + " not in ("@ + placeholders(vs@.len()) + ")"@,
        item_params(QueryItem::NotIn(c, vs)) == param_views(vs@),
        item_text(QueryItem::InSql(c, sql)) == c@ + " in ("@ + sql@ + ")"@,
        item_params(QueryItem::InSql(c, sql)).len() == 0,
        item_text(QueryItem::NotInSql(c, sql)) == c@ + " not in ("@ + sql@ + ")"@,
        item_params(QueryItem::NotInSql(c, sql)).len() == 0,
        item_text(QueryItem::IsNull(c)) == c@ + " is null"@ && item_params(QueryItem::IsNull(c)).len() == 0,
        item_text(QueryItem::IsNotNull(c)) == c@ + " is not null"@ && item_params(QueryItem::IsNotNull(c)).len() == 0,
        item_text(QueryItem::ApplySql(c, vs)) == c@ && item_params(QueryItem::ApplySql(c, vs)) == param_views(vs@),
        item_text(QueryItem::ExistsSql(c, vs)) == "exists ("@ + c@ + ")"@,
        item_params(QueryItem::ExistsSql(c, vs)) == param_views(vs@),
        item_text(QueryItem::NotExistsSql(c, vs)) == "not exists ("@ + c@ + ")"@,
        item_params(QueryItem::NotExistsSql(c, vs)) == param_views(vs@),
        relation_sep(QueryRelation::And) == "  AND  "@,
        relation_sep(QueryRelation::Or) == "  OR  "@,
{
    assert(seq![ParamValueView::String("%"@ + param_text(v@) + "%"@)] =~= item_params(QueryItem::Like(c, v)));
    assert(("%"@ + param_text(v@) + Seq::<char>::empty()) =~= "%"@ + param_text(v@));
    assert((Seq::<char>::empty() + param_text(v@) + "%"@) =~= param_text(v@) + "%"@);
    reveal_strlit(" AND ");
    reveal_strlit(" OR ");
    reveal_strlit(" ");
    reveal_strlit("  AND  ");
    reveal_strlit("  OR  ");
    assert(" "@ + " AND "@ + " "@ =~= "  AND  "@);
    assert(" "@ + " OR "@ + " "@ =~= "  OR  "@);
}

/// The text of each kind of condition. Every method has its text fixed by
/// its contract; a dialect may override a method only with the same text.
pub trait WhereSqlGenerator {
    fn eq(&self, column: &str) -> (r: String)
        ensures
            r@ == column@ + " = ?"@,
    {
        concat2(column, " = ?")
    }

    fn ne(&self, column: &str) -> (r: String)
        ensures
            r@ == column@ + " != ?"@,
    {
        concat2(column, " != ?")
    }

    fn lt(&self, column: &str) -> (r: String)
        ensures
            r@ == column@ + " < ?"@,
    {
        concat2(column, " < ?")
    }

    fn le(&self, column: &str) -> (r: String)
        ensures
            r@ == column@ + " <= ?"@,
    {
        concat2(column, " <= ?")
    }

    fn gt(&self, column: &str) -> (r: String)
        ensures
            r@ == column@ + " > ?"@,
    {
        concat2(column, " > ?")
    }

    fn ge(&self, column: &str) -> (r: String)
        ensures
            r@ == column@ + " >= ?"@,
    {
        concat2(column, " >= ?")
    }

    fn between(&self, column: &str) -> (r: String)
        ensures
            r@ == column@ + " between ? and ?"@,
    {
        concat2(column, " between ? and ?")
    }

    fn like(&self, column: &str) -> (r: String)
        ensures
            r@ == column@ + " like ?"@,
    {
        concat2(column, " like ?")
    }

    /// The negated pattern match.
    fn not_like(&self, column: &str) -> (r: String)
        ensures
            r@ == column@ + " not like ?"@,
    {
        concat2(column, " not like ?")
    }

    fn is_null(&self, column: &str) -> (r: String)
        ensures
            r@ == column@ + " is null"@,
    {
        concat2(column, " is null")
    }

    fn is_not_null(&self, column: &str) -> (r: String)
        ensures
            r@ == column@ + " is not null"@,
    {
        concat2(column, " is not null")
    }

    fn in_vec(&self, column: &str, vec_size: usize) -> (r: String)
        ensures
            r@ == column@ + " in ("@ + placeholders(vec_size as nat) + ")"@,
    {
        let marks = placeholder_list(vec_size);
        concat3(concat2(column, " in (").as_str(), marks.as_str(), ")")
    }

    fn in_sql(&self, column: &str, sql: &str) -> (r: String)
        ensures
            r@ == column@ + " in ("@ + sql@ + ")"@,
    {
        concat3(concat2(column, " in (").as_str(), sql, ")")
    }

    fn not_in_vec(&self, column: &str, vec_size: usize) -> (r: String)
        ensures
            r@ == column@ + " not in ("@ + placeholders(vec_size as nat) + ")"@,
    {
        let marks = placeholder_list(vec_size);
        concat3(concat2(column, " not in (").as_str(), marks.as_str(), ")")
    }

    fn not_in_sql(&self, column: &str, sql: &str) -> (r: String)
        ensures
            r@ == column@ + " not in ("@ + sql@ + ")"@,
    {
        concat3(concat2(column, " not in (").as_str(), sql, ")")
    }

    /// A piece of SQL used as it stands.
    fn apply_sql(&self, sql: &str, vec_size: usize) -> (r: String)
        ensures
            r@ == sql@,
    {
        String::from_str(sql)
    }

    fn exist(&self, sql: &str) -> (r: String)
        ensures
            r@ == "exists ("@ + sql@ + ")"@,
    {
        concat3("exists (", sql, ")")
    }

    fn not_exist(&self, sql: &str) -> (r: String)
        ensures
            r@ == "not exists ("@ + sql@ + ")"@,
    {
        concat3("not exists (", sql, ")")
    }
}

/// A `like` pattern built from the text of a value.
fn like_pattern(before: bool, v: &ParamValue, after: bool) -> (r: ParamValue)
    ensures
        r@ == pattern(before, v@, after),
{
    let mut s = if before { String::from_str("%") } else { String::new() };
    let text = v.to_string();
    s.append(text.as_str());
    if after {
        s.append("%");
    }
    proof {
        reveal_strlit("%");
    }
    ParamValue::String(s)
}

/// The text of one condition and the values it binds.
pub fn item_to_sql<'a, G: WhereSqlGenerator + ?Sized>(generator: &G, item: &QueryItem<'a>) -> (r: (String, Vec<ParamValue>))
    ensures
        r.0@ == item_text(*item),
        param_views(r.1@) == item_params(*item),
{
    let mut params: Vec<ParamValue> = Vec::new();
    let text = match item {
        QueryItem::Eq(c, v) => { params.push(v.clone()); generator.eq(c) },
        QueryItem::Ne(c, v) => { params.push(v.clone()); generator.ne(c) },
        QueryItem::Lt(c, v) => { params.push(v.clone()); generator.lt(c) },
        QueryItem::Le(c, v) => { params.push(v.clone()); generator.le(c) },
        QueryItem::Gt(c, v) => { params.push(v.clone()); generator.gt(c) },
        QueryItem::Ge(c, v) => { params.push(v.clone()); generator.ge(c) },
        QueryItem::Between(c, a, b) => {
            params.push(a.clone());
            params.push(b.clone());
            generator.between(c)
        },
        QueryItem::Like(c, v) => { params.push(like_pattern(true, v, true)); generator.like(c) },
        QueryItem::LikeLeft(c, v) => { params.push(like_pattern(true, v, false)); generator.like(c) },
        QueryItem::LikeRight(c, v) => { params.push(like_pattern(false, v, true)); generator.like(c) },
        QueryItem::NotLike(c, v) => { params.push(like_pattern(true, v, true)); generator.not_like(c) },
        QueryItem::NotLikeLeft(c, v) => {
            params.push(like_pattern(true, v, false));
            generator.not_like(c)
        },
        QueryItem::NotLikeRight(c, v) => {
            params.push(like_pattern(false, v, true));
            generator.not_like(c)
        },
        QueryItem::IsNotNull(c) => generator.is_not_null(c),
        QueryItem::IsNull(c) => generator.is_null(c),
        QueryItem::In(c, vs) => { params = clone_params(vs); generator.in_vec(c, vs.len()) },
        QueryItem::NotIn(c, vs) => { params = clone_params(vs); generator.not_in_vec(c, vs.len()) },
        QueryItem::InSql(c, s) => generator.in_sql(c, s.as_str()),
        QueryItem::NotInSql(c, s) => generator.not_in_sql(c, s.as_str()),
        QueryItem::ApplySql(s, vs) => { params = clone_params(vs); generator.apply_sql(s, vs.len()) },
        QueryItem::ExistsSql(s, vs) => { params = clone_params(vs); generator.exist(s) },
        QueryItem::NotExistsSql(s, vs) => { params = clone_params(vs); generator.not_exist(s) },
    };
    proof {
        assert(param_views(params@) =~= item_params(*item));
    }
    (text, params)
}

/// Appends `more` to `params`.
fn append_params(params: &mut Vec<ParamValue>, more: Vec<ParamValue>)
    ensures
        param_views(final(params)@) == param_views(old(params)@) + param_views(more@),
{
    let mut more = more;
    let ghost a = params@;
    let ghost b = more@;
    params.append(&mut more);
    proof {
        assert(param_views(a + b) =~= param_views(a) + param_views(b));
    }
}

/// The text of a group of conditions and the values it binds: each node's
/// text (a nested group in parentheses) joined by the group's relation.
pub fn group_to_sql<'a, G: WhereSqlGenerator + ?Sized>(generator: &G, group: &QueryItemGroup<'a>) -> (r: (String, Vec<ParamValue>))
    ensures
        r.0@ == group_text(*group),
        param_views(r.1@) == group_params(*group),
    decreases group,
{
    let ghost nodes = group.query_item_nodes@;
    let mut texts: Vec<String> = Vec::new();
    let mut params: Vec<ParamValue> = Vec::new();
    let mut i: usize = 0;
    while i < group.query_item_nodes.len()
        invariant
            i <= nodes.len(),
            nodes == group.query_item_nodes@,
            string_views(texts@) == nodes_texts(nodes.take(i as int)),
            param_views(params@) == nodes_params(nodes.take(i as int)),
        decreases nodes.len() - i,
    {
        let node = &group.query_item_nodes[i];
        let (text, more) = match node {
            QueryItemNode::Item(item) => item_to_sql(generator, item),
            QueryItemNode::ItemGroup(sub) => {
                proof {
                    assert(decreases_to!(group.query_item_nodes => group.query_item_nodes[i as int]));
                }
                let (s, ps) = group_to_sql(generator, sub);
                (concat3("(", s.as_str(), ")"), ps)
            },
        };
        let ghost old_texts = texts@;
        proof {
            let t = nodes.take(i + 1);
            assert(t.drop_last() =~= nodes.take(i as int));
            assert(t.last() == nodes[i as int]);
            assert(text@ == node_text(nodes[i as int]));
            assert(param_views(more@) == node_params(nodes[i as int]));
        }
        texts.push(text);
        append_params(&mut params, more);
        proof {
            let t = nodes.take(i + 1);
            assert(texts@ == old_texts.push(text));
            assert(string_views(texts@) =~= string_views(old_texts).push(text@));
            assert(nodes_texts(t) == nodes_texts(t.drop_last()).push(node_text(t.last())));
            assert(string_views(texts@) =~= nodes_texts(t));
        }
        i = i + 1;
    }
    proof {
        assert(nodes.take(nodes.len() as int) =~= nodes);
    }
    let relation = group.relation_type.to_sql();
    let sep = concat3(" ", relation, " ");
    (join(&texts, sep.as_str()), params)
}

/// The number of '?' placeholders in a text.
pub open spec fn marks(s: Seq<char>) -> nat
    decreases s.len(),
{
    if s.len() == 0 {
        0
    } else {
        marks(s.drop_last()) + if s.last() == '?' {
            1nat
        } else {
            0nat
        }
    }
}

/// The placeholders of the texts of a sequence, together.
pub open spec fn sum_marks(parts: Seq<Seq<char>>) -> nat
    decreases parts.len(),
{
    if parts.len() == 0 {
        0
    } else {
        sum_marks(parts.drop_last()) + marks(parts.last())
    }
}

/// A condition on a column without '?' in its name, other than those that
/// bring SQL text of their own.
pub open spec fn plain_item<'a>(item: QueryItem<'a>) -> bool {
    match item {
        QueryItem::InSql(_, _) | QueryItem::NotInSql(_, _) | QueryItem::ApplySql(_, _)
        | QueryItem::ExistsSql(_, _) | QueryItem::NotExistsSql(_, _) => false,
        QueryItem::Eq(c, _) | QueryItem::Ne(c, _) | QueryItem::Lt(c, _) | QueryItem::Le(c, _)
        | QueryItem::Gt(c, _) | QueryItem::Ge(c, _) | QueryItem::Between(c, _, _) | QueryItem::Like(c, _)
        | QueryItem::LikeLeft(c, _) | QueryItem::LikeRight(c, _) | QueryItem::NotLike(c, _)
        | QueryItem::NotLikeLeft(c, _) | QueryItem::NotLikeRight(c, _) | QueryItem::In(c, _)
        | QueryItem::NotIn(c, _) | QueryItem::IsNotNull(c) | QueryItem::IsNull(c) => marks(c@) == 0,
    }
}

/// Every condition of the node is plain.
pub open spec fn plain_node<'a>(n: QueryItemNode<'a>) -> bool
    decreases n,
{
    match n {
        QueryItemNode::Item(item) => plain_item(item),
        QueryItemNode::ItemGroup(g) => plain_nodes(g.query_item_nodes@),
    }
}

/// Every condition of the nodes is plain.
pub open spec fn plain_nodes<'a>(nodes: Seq<QueryItemNode<'a>>) -> bool
    decreases nodes,
{
    if nodes.len() == 0 {
        true
    } else {
        plain_nodes(nodes.drop_last()) && plain_node(nodes.last())
    }
}

proof fn lemma_marks_lit_not_like()
    ensures
        marks(" not like ?"@) == 1,
{
    reveal_strlit(" not like ?");
    let s = seq![' ', 'n', 'o', 't', ' ', 'l', 'i', 'k', 'e', ' ', '?'];
    assert(" not like ?"@ =~= s);
    reveal_with_fuel(marks, 13);
    assert(marks(s) == 1);
}

proof fn lemma_marks_lit_0()
    ensures
        marks(" = ?"@) == 1,
{
    reveal_strlit(" = ?");
    let s = seq![' ', '=', ' ', '?'];
    assert(" = ?"@ =~= s);
    reveal_with_fuel(marks, 6);
    assert(marks(s) == 1);
}

proof fn lemma_marks_lit_1()
    ensures
        marks(" != ?"@) == 1,
{
    reveal_strlit(" != ?");
    let s = seq![' ', '!', '=', ' ', '?'];
    assert(" != ?"@ =~= s);
    reveal_with_fuel(marks, 7);
    assert(marks(s) == 1);
}

proof fn lemma_marks_lit_2()
    ensures
        marks(" < ?"@) == 1,
{
    reveal_strlit(" < ?");
    let s = seq![' ', '<', ' ', '?'];
    assert(" < ?"@ =~= s);
    reveal_with_fuel(marks, 6);
    assert(marks(s) == 1);
}

proof fn lemma_marks_lit_3()
    ensures
        marks(" <= ?"@) == 1,
{
    reveal_strlit(" <= ?");
    let s = seq![' ', '<', '=', ' ', '?'];
    assert(" <= ?"@ =~= s);
    reveal_with_fuel(marks, 7);
    assert(marks(s) == 1);
}

proof fn lemma_marks_lit_4()
    ensures
        marks(" > ?"@) == 1,
{
    reveal_strlit(" > ?");
    let s = seq![' ', '>', ' ', '?'];
    assert(" > ?"@ =~= s);
    reveal_with_fuel(marks, 6);
    assert(marks(s) == 1);
}

proof fn lemma_marks_lit_5()
    ensures
        marks(" >= ?"@) == 1,
{
    reveal_strlit(" >= ?");
    let s = seq![' ', '>', '=', ' ', '?'];
    assert(" >= ?"@ =~= s);
    reveal_with_fuel(marks, 7);
    assert(marks(s) == 1);
}

proof fn lemma_marks_lit_6()
    ensures
        marks(" between ? and ?"@) == 2,
{
    reveal_strlit(" between ? and ?");
    let s = seq![' ', 'b', 'e', 't', 'w', 'e', 'e', 'n', ' ', '?', ' ', 'a', 'n', 'd', ' ', '?'];
    assert(" between ? and ?"@ =~= s);
    reveal_with_fuel(marks, 18);
    assert(marks(s) == 2);
}

proof fn lemma_marks_lit_7()
    ensures
        marks(" like ?"@) == 1,
{
    reveal_strlit(" like ?");
    let s = seq![' ', 'l', 'i', 'k', 'e', ' ', '?'];
    assert(" like ?"@ =~= s);
    reveal_with_fuel(marks, 9);
    assert(marks(s) == 1);
}

proof fn lemma_marks_lit_8()
    ensures
        marks(" in ("@) == 0,
{
    reveal_strlit(" in (");
    let s = seq![' ', 'i', 'n', ' ', '('];
    assert(" in ("@ =~= s);
    reveal_with_fuel(marks, 7);
    assert(marks(s) == 0);
}

proof fn lemma_marks_lit_9()
    ensures
        marks(" not in ("@) == 0,
{
    reveal_strlit(" not in (");
    let s = seq![' ', 'n', 'o', 't', ' ', 'i', 'n', ' ', '('];
    assert(" not in ("@ =~= s);
    reveal_with_fuel(marks, 11);
    assert(marks(s) == 0);
}

proof fn lemma_marks_lit_10()
    ensures
        marks(")"@) == 0,
{
    reveal_strlit(")");
    let s = seq![')'];
    assert(")"@ =~= s);
    reveal_with_fuel(marks, 3);
    assert(marks(s) == 0);
}

proof fn lemma_marks_lit_11()
    ensures
        marks("("@) == 0,
{
    reveal_strlit("(");
    let s = seq!['('];
    assert("("@ =~= s);
    reveal_with_fuel(marks, 3);
    assert(marks(s) == 0);
}

proof fn lemma_marks_lit_12()
    ensures
        marks(" is not null"@) == 0,
{
    reveal_strlit(" is not null");
    let s = seq![' ', 'i', 's', ' ', 'n', 'o', 't', ' ', 'n', 'u', 'l', 'l'];
    assert(" is not null"@ =~= s);
    reveal_with_fuel(marks, 14);
    assert(marks(s) == 0);
}

proof fn lemma_marks_lit_13()
    ensures
        marks(" is null"@) == 0,
{
    reveal_strlit(" is null");
    let s = seq![' ', 'i', 's', ' ', 'n', 'u', 'l', 'l'];
    assert(" is null"@ =~= s);
    reveal_with_fuel(marks, 10);
    assert(marks(s) == 0);
}

proof fn lemma_marks_lit_14()
    ensures
        marks(" "@) == 0,
{
    reveal_strlit(" ");
    let s = seq![' '];
    assert(" "@ =~= s);
    reveal_with_fuel(marks, 3);
    assert(marks(s) == 0);
}

proof fn lemma_marks_lit_15()
    ensures
        marks(" AND "@) == 0,
{
    reveal_strlit(" AND ");
    let s = seq![' ', 'A', 'N', 'D', ' '];
    assert(" AND "@ =~= s);
    reveal_with_fuel(marks, 7);
    assert(marks(s) == 0);
}

proof fn lemma_marks_lit_16()
    ensures
        marks(" OR "@) == 0,
{
    reveal_strlit(" OR ");
    let s = seq![' ', 'O', 'R', ' '];
    assert(" OR "@ =~= s);
    reveal_with_fuel(marks, 6);
    assert(marks(s) == 0);
}

proof fn lemma_marks_lit_17()
    ensures
        marks(","@) == 0,
{
    reveal_strlit(",");
    let s = seq![','];
    assert(","@ =~= s);
    reveal_with_fuel(marks, 3);
    assert(marks(s) == 0);
}

proof fn lemma_marks_lit_18()
    ensures
        marks("?"@) == 1,
{
    reveal_strlit("?");
    let s = seq!['?'];
    assert("?"@ =~= s);
    reveal_with_fuel(marks, 3);
    assert(marks(s) == 1);
}

/// Placeholders add up over concatenation.
pub proof fn lemma_marks_concat(a: Seq<char>, b: Seq<char>)
    ensures
        marks(a + b) == marks(a) + marks(b),
    decreases b.len(),
{
    if b.len() > 0 {
        assert((a + b).drop_last() =~= a + b.drop_last());
        lemma_marks_concat(a, b.drop_last());
    } else {
        assert(a + b =~= a);
    }
}

/// Joining with a separator without placeholders keeps those of the parts.
pub proof fn lemma_marks_join(parts: Seq<Seq<char>>, sep: Seq<char>)
    requires
        marks(sep) == 0,
    ensures
        marks(join_text(parts, sep)) == sum_marks(parts),
    decreases parts.len(),
{
    if parts.len() == 0 {
        assert(marks(Seq::<char>::empty()) == 0);
    } else if parts.len() == 1 {
        assert(parts.drop_last() =~= Seq::<Seq<char>>::empty());
        assert(sum_marks(parts.drop_last()) == 0);
    } else if parts.len() > 1 {
        lemma_marks_join(parts.drop_last(), sep);
        lemma_marks_concat(join_text(parts.drop_last(), sep), sep);
        lemma_marks_concat(join_text(parts.drop_last(), sep) + sep, parts.last());
    }
}

/// `placeholders(n)` holds `n` placeholders.
pub proof fn lemma_marks_placeholders(n: nat)
    ensures
        marks(placeholders(n)) == n,
    decreases n,
{
    lemma_marks_lit_17();
    lemma_marks_lit_18();
    let parts = Seq::new(n, |i: int| "?"@);
    lemma_marks_join(parts, ","@);
    lemma_sum_marks_of_marks(n);
}

proof fn lemma_sum_marks_of_marks(n: nat)
    requires
        marks("?"@) == 1,
    ensures
        sum_marks(Seq::new(n, |i: int| "?"@)) == n,
    decreases n,
{
    if n > 0 {
        assert(Seq::new(n, |i: int| "?"@).drop_last() =~= Seq::new((n - 1) as nat, |i: int| "?"@));
        lemma_sum_marks_of_marks((n - 1) as nat);
    }
}

/// Each plain condition has as many placeholders as values.
proof fn lemma_item_marks<'a>(item: QueryItem<'a>)
    requires
        plain_item(item),
    ensures
        marks(item_text(item)) == item_params(item).len(),
{
    match item {
        QueryItem::In(c, v) => {
            lemma_marks_lit_8();
            lemma_marks_lit_10();
            lemma_marks_placeholders(v@.len());
            lemma_marks_concat(c@, " in ("@);
            lemma_marks_concat(c@ + " in ("@, placeholders(v@.len()));
            lemma_marks_concat(c@ + " in ("@ + placeholders(v@.len()), ")"@);
        },
        QueryItem::NotIn(c, v) => {
            lemma_marks_lit_9();
            lemma_marks_lit_10();
            lemma_marks_placeholders(v@.len());
            lemma_marks_concat(c@, " not in ("@);
            lemma_marks_concat(c@ + " not in ("@, placeholders(v@.len()));
            lemma_marks_concat(c@ + " not in ("@ + placeholders(v@.len()), ")"@);
        },
        QueryItem::Eq(c, _) => {
            lemma_marks_lit_0();
            lemma_marks_concat(c@, " = ?"@);
        },
        QueryItem::Ne(c, _) => {
            lemma_marks_lit_1();
            lemma_marks_concat(c@, " != ?"@);
        },
        QueryItem::Lt(c, _) => {
            lemma_marks_lit_2();
            lemma_marks_concat(c@, " < ?"@);
        },
        QueryItem::Le(c, _) => {
            lemma_marks_lit_3();
            lemma_marks_concat(c@, " <= ?"@);
        },
        QueryItem::Gt(c, _) => {
            lemma_marks_lit_4();
            lemma_marks_concat(c@, " > ?"@);
        },
        QueryItem::Ge(c, _) => {
            lemma_marks_lit_5();
            lemma_marks_concat(c@, " >= ?"@);
        },
        QueryItem::Between(c, _, _) => {
            lemma_marks_lit_6();
            lemma_marks_concat(c@, " between ? and ?"@);
        },
        QueryItem::Like(c, _) => {
            lemma_marks_lit_7();
            lemma_marks_concat(c@, " like ?"@);
        },
        QueryItem::LikeLeft(c, _) => {
            lemma_marks_lit_7();
            lemma_marks_concat(c@, " like ?"@);
        },
        QueryItem::LikeRight(c, _) => {
            lemma_marks_lit_7();
            lemma_marks_concat(c@, " like ?"@);
        },
        QueryItem::NotLike(c, _) => {
            lemma_marks_lit_not_like();
            lemma_marks_concat(c@, " not like ?"@);
        },
        QueryItem::NotLikeLeft(c, _) => {
            lemma_marks_lit_not_like();
            lemma_marks_concat(c@, " not like ?"@);
        },
        QueryItem::NotLikeRight(c, _) => {
            lemma_marks_lit_not_like();
            lemma_marks_concat(c@, " not like ?"@);
        },
        QueryItem::IsNotNull(c) => {
            lemma_marks_lit_12();
            lemma_marks_concat(c@, " is not null"@);
        },
        QueryItem::IsNull(c) => {
            lemma_marks_lit_13();
            lemma_marks_concat(c@, " is null"@);
        },
        _ => {},
    }
}

proof fn lemma_node_marks<'a>(n: QueryItemNode<'a>)
    requires
        plain_node(n),
    ensures
        marks(node_text(n)) == node_params(n).len(),
    decreases n,
{
    match n {
        QueryItemNode::Item(item) => lemma_item_marks(item),
        QueryItemNode::ItemGroup(g) => {
            lemma_marks_lit_14();
            lemma_marks_lit_15();
            lemma_marks_lit_16();
            lemma_marks_lit_11();
            lemma_marks_lit_10();
            let sep = relation_sep(g.relation_type);
            lemma_marks_concat(" "@, relation_text(g.relation_type));
            lemma_marks_concat(" "@ + relation_text(g.relation_type), " "@);
            lemma_marks_join(nodes_texts(g.query_item_nodes@), sep);
            lemma_nodes_marks(g.query_item_nodes@);
            let inner = join_text(nodes_texts(g.query_item_nodes@), sep);
            lemma_marks_concat("("@, inner);
            lemma_marks_concat("("@ + inner, ")"@);
        },
    }
}

proof fn lemma_nodes_marks<'a>(nodes: Seq<QueryItemNode<'a>>)
    requires
        plain_nodes(nodes),
    ensures
        sum_marks(nodes_texts(nodes)) == nodes_params(nodes).len(),
    decreases nodes,
{
    if nodes.len() > 0 {
        lemma_nodes_marks(nodes.drop_last());
        lemma_node_marks(nodes.last());
        assert(nodes_texts(nodes).drop_last() =~= nodes_texts(nodes.drop_last()));
    }
}

/// In a group whose conditions are all plain, every value is bound to one
/// placeholder of the text: the text holds exactly as many placeholders as
/// the group binds values.
pub proof fn lemma_placeholders_match_values<'a>(g: QueryItemGroup<'a>)
    requires
        plain_nodes(g.query_item_nodes@),
    ensures
        marks(group_text(g)) == group_params(g).len(),
{
    lemma_marks_lit_14();
    lemma_marks_lit_15();
    lemma_marks_lit_16();
    lemma_marks_concat(" "@, relation_text(g.relation_type));
    lemma_marks_concat(" "@ + relation_text(g.relation_type), " "@);
    lemma_marks_join(nodes_texts(g.query_item_nodes@), relation_sep(g.relation_type));
    lemma_nodes_marks(g.query_item_nodes@);
}

} // verus!
