//! A builder of queries on the table of an entity.
use vstd::prelude::*;
use core::marker::PhantomData;
use crate::base::entity::Entity;
use crate::base::param::{IntoParamValue, ParamValue, ParamValueView, param_views};
use crate::query::query::{
    Query, QueryItem, QueryItemNode, QueryItemView, QueryRelation, is_blank_query,
};

verus! {

/// The values that a sequence of convertible values converts to.
pub open spec fn spec_params<V: IntoParamValue>(values: Seq<V>) -> Seq<ParamValueView> {
    values.map_values(|v: V| v.spec_param())
}

/// Converts each value, keeping the order.
pub fn into_params<V: IntoParamValue>(values: Vec<V>) -> (r: Vec<ParamValue>)
    ensures
        param_views(r@) == spec_params(values@),
{
    let ghost orig = values@;
    let mut rest = values;
    let mut r: Vec<ParamValue> = Vec::new();
    let mut k: usize = 0;
    let n: usize = rest.len();
    while rest.len() > 0
        invariant
            orig.len() == n,
            r@.len() == k,
            k <= orig.len(),
            rest@ == orig.skip(k as int),
            rest@.len() == orig.len() - k,
            param_views(r@) == spec_params(orig.take(k as int)),
        decreases rest.len(),
    {
        let v = rest.remove(0);
        let ghost before = r@;
        r.push(v.into_param_value());
        proof {
            assert(v == orig[k as int]);
            assert(orig.take(k + 1) =~= orig.take(k as int).push(v));
            assert(param_views(r@) =~= param_views(before).push(r@[k as int]@));
            assert(spec_params(orig.take(k + 1)) =~= spec_params(orig.take(k as int)).push(v.spec_param()));
            assert(rest@ =~= orig.skip(k + 1));
        }
        k = k + 1;
    }
    proof {
        assert(orig.take(k as int) =~= orig);
    }
    r
}

/// A query under construction on the table of the entity `E`.
pub struct QueryWrapper<'a, E: Entity> {
    pub query: Query<'a>,
    pub e: PhantomData<E>,
}

/// The nodes at the top of the condition tree of a wrapper.
pub open spec fn top_nodes<'a, E: Entity>(w: QueryWrapper<'a, E>) -> Seq<QueryItemNode<'a>> {
    w.query.query_group.query_item_nodes@
}

/// A part of a query that a builder method may change.
pub enum QueryPart {
    Nodes,
    Include,
    Exclude,
    Order,
    GroupBy,
    Limit,
}

/// Two queries agree on everything but `part` (the relation at the top is
/// never changed).
pub open spec fn same_except<'a>(a: Query<'a>, b: Query<'a>, part: QueryPart) -> bool {
    &&& a.query_group.relation_type == b.query_group.relation_type
    &&& (part !is Nodes ==> a.query_group.query_item_nodes@ == b.query_group.query_item_nodes@)
    &&& (part !is Include ==> a.select_include_columns@ == b.select_include_columns@)
    &&& (part !is Exclude ==> a.select_exclude_columns@ == b.select_exclude_columns@)
    &&& (part !is Order ==> a.order_by_types@ == b.order_by_types@)
    &&& (part !is GroupBy ==> a.group_by_columns@ == b.group_by_columns@)
    &&& (part !is Limit ==> a.limit_size == b.limit_size)
}

/// Everything of two queries but their top-level nodes is the same.
pub open spec fn same_settings<'a>(a: Query<'a>, b: Query<'a>) -> bool {
    same_except(a, b, QueryPart::Nodes)
}

/// `new` is `old` with one node added at the end of its top level.
pub open spec fn adds_node<'a, E: Entity>(old: QueryWrapper<'a, E>, new: QueryWrapper<'a, E>) -> bool {
    &&& same_settings(old.query, new.query)
    &&& top_nodes(new).len() == top_nodes(old).len() + 1
    &&& top_nodes(new).drop_last() == top_nodes(old)
}

/// `new` is `old` with the condition `item` added at the end of its top level.
pub open spec fn adds_item<'a, E: Entity>(old: QueryWrapper<'a, E>, new: QueryWrapper<'a, E>, item: QueryItemView) -> bool {
    &&& adds_node(old, new)
    &&& top_nodes(new).last() is Item
    &&& top_nodes(new).last()->Item_0@ == item
}

/// `new` is `old` with a nested group added at the end of its top level: the
/// nodes of `sub`, joined by `relation`.
pub open spec fn adds_group<'a, E: Entity>(
    old: QueryWrapper<'a, E>,
    new: QueryWrapper<'a, E>,
    sub: QueryWrapper<'a, E>,
    relation: QueryRelation,
) -> bool {
    &&& adds_node(old, new)
    &&& top_nodes(new).last() is ItemGroup
    &&& top_nodes(new).last()->ItemGroup_0.query_item_nodes@ == top_nodes(sub)
    &&& top_nodes(new).last()->ItemGroup_0.relation_type == relation
}

/// A wrapper whose query selects everything.
pub open spec fn is_blank<'a, E: Entity>(w: QueryWrapper<'a, E>) -> bool {
    is_blank_query(w.query)
}

impl<'a, E: Entity> QueryWrapper<'a, E> {
    /// A wrapper whose query selects everything.
    pub fn new() -> (r: Self)
        ensures
            is_blank(r),
    {
        QueryWrapper { query: Query::new(), e: PhantomData }
    }

    /// Adds a condition at the end of the top level.
    pub fn add_condition(self, query_item: QueryItem<'a>) -> (r: Self)
        ensures
            adds_node(self, r),
            top_nodes(r) == top_nodes(self).push(QueryItemNode::Item(query_item)),
    {
        let ghost before = top_nodes(self);
        let mut w = self;
        w.query.query_group.query_item_nodes.push(QueryItemNode::Item(query_item));
        proof {
            assert(top_nodes(w).drop_last() =~= before);
        }
        w
    }

    /// Adds the condition that the column is equal to the value.
    pub fn eq<V: IntoParamValue>(self, column: &'a str, value: V) -> (r: Self)
        ensures
            adds_item(self, r, QueryItemView::Eq(column@, value.spec_param())),
    {
        self.add_condition(QueryItem::Eq(column, value.into_param_value()))
    }

    /// `eq` where the condition holds; otherwise the wrapper unchanged.
    pub fn eq_when<V: IntoParamValue>(self, condition: bool, column: &'a str, value: V) -> (r: Self)
        ensures
            !condition ==> r == self,
            condition ==> adds_item(self, r, QueryItemView::Eq(column@, value.spec_param())),
    {
        if !condition {
            return self;
        }
        self.eq(column, value)
    }

    /// Adds the condition that the column is not equal to the value.
    pub fn ne<V: IntoParamValue>(self, column: &'a str, value: V) -> (r: Self)
        ensures
            adds_item(self, r, QueryItemView::Ne(column@, value.spec_param())),
    {
        self.add_condition(QueryItem::Ne(column, value.into_param_value()))
    }

    /// `ne` where the condition holds; otherwise the wrapper unchanged.
    pub fn ne_when<V: IntoParamValue>(self, condition: bool, column: &'a str, value: V) -> (r: Self)
        ensures
            !condition ==> r == self,
            condition ==> adds_item(self, r, QueryItemView::Ne(column@, value.spec_param())),
    {
        if !condition {
            return self;
        }
        self.ne(column, value)
    }

    /// Adds the condition that the column is less than the value.
    pub fn lt<V: IntoParamValue>(self, column: &'a str, value: V) -> (r: Self)
        ensures
            adds_item(self, r, QueryItemView::Lt(column@, value.spec_param())),
    {
        self.add_condition(QueryItem::Lt(column, value.into_param_value()))
    }

    /// `lt` where the condition holds; otherwise the wrapper unchanged.
    pub fn lt_when<V: IntoParamValue>(self, condition: bool, column: &'a str, value: V) -> (r: Self)
        ensures
            !condition ==> r == self,
            condition ==> adds_item(self, r, QueryItemView::Lt(column@, value.spec_param())),
    {
        if !condition {
            return self;
        }
        self.lt(column, value)
    }

    /// Adds the condition that the column is at most the value.
    pub fn le<V: IntoParamValue>(self, column: &'a str, value: V) -> (r: Self)
        ensures
            adds_item(self, r, QueryItemView::Le(column@, value.spec_param())),
    {
        self.add_condition(QueryItem::Le(column, value.into_param_value()))
    }

    /// `le` where the condition holds; otherwise the wrapper unchanged.
    pub fn le_when<V: IntoParamValue>(self, condition: bool, column: &'a str, value: V) -> (r: Self)
        ensures
            !condition ==> r == self,
            condition ==> adds_item(self, r, QueryItemView::Le(column@, value.spec_param())),
    {
        if !condition {
            return self;
        }
        self.le(column, value)
    }

    /// Adds the condition that the column is greater than the value.
    pub fn gt<V: IntoParamValue>(self, column: &'a str, value: V) -> (r: Self)
        ensures
            adds_item(self, r, QueryItemView::Gt(column@, value.spec_param())),
    {
        self.add_condition(QueryItem::Gt(column, value.into_param_value()))
    }

    /// `gt` where the condition holds; otherwise the wrapper unchanged.
    pub fn gt_when<V: IntoParamValue>(self, condition: bool, column: &'a str, value: V) -> (r: Self)
        ensures
            !condition ==> r == self,
            condition ==> adds_item(self, r, QueryItemView::Gt(column@, value.spec_param())),
    {
        if !condition {
            return self;
        }
        self.gt(column, value)
    }

    /// Adds the condition that the column is at least the value.
    pub fn ge<V: IntoParamValue>(self, column: &'a str, value: V) -> (r: Self)
        ensures
            adds_item(self, r, QueryItemView::Ge(column@, value.spec_param())),
    {
        self.add_condition(QueryItem::Ge(column, value.into_param_value()))
    }

    /// `ge` where the condition holds; otherwise the wrapper unchanged.
    pub fn ge_when<V: IntoParamValue>(self, condition: bool, column: &'a str, value: V) -> (r: Self)
        ensures
            !condition ==> r == self,
            condition ==> adds_item(self, r, QueryItemView::Ge(column@, value.spec_param())),
    {
        if !condition {
            return self;
        }
        self.ge(column, value)
    }

    /// Adds the condition that the column is matching the value's text anywhere.
    pub fn like<V: IntoParamValue>(self, column: &'a str, value: V) -> (r: Self)
        ensures
            adds_item(self, r, QueryItemView::Like(column@, value.spec_param())),
    {
        self.add_condition(QueryItem::Like(column, value.into_param_value()))
    }

    /// `like` where the condition holds; otherwise the wrapper unchanged.
    pub fn like_when<V: IntoParamValue>(self, condition: bool, column: &'a str, value: V) -> (r: Self)
        ensures
            !condition ==> r == self,
            condition ==> adds_item(self, r, QueryItemView::Like(column@, value.spec_param())),
    {
        if !condition {
            return self;
        }
        self.like(column, value)
    }

    /// Adds the condition that the column is ending with the value's text.
    pub fn like_left<V: IntoParamValue>(self, column: &'a str, value: V) -> (r: Self)
        ensures
            adds_item(self, r, QueryItemView::LikeLeft(column@, value.spec_param())),
    {
        self.add_condition(QueryItem::LikeLeft(column, value.into_param_value()))
    }

    /// `like_left` where the condition holds; otherwise the wrapper unchanged.
    pub fn like_left_when<V: IntoParamValue>(self, condition: bool, column: &'a str, value: V) -> (r: Self)
        ensures
            !condition ==> r == self,
            condition ==> adds_item(self, r, QueryItemView::LikeLeft(column@, value.spec_param())),
    {
        if !condition {
            return self;
        }
        self.like_left(column, value)
    }

    /// Adds the condition that the column is starting with the value's text.
    pub fn like_right<V: IntoParamValue>(self, column: &'a str, value: V) -> (r: Self)
        ensures
            adds_item(self, r, QueryItemView::LikeRight(column@, value.spec_param())),
    {
        self.add_condition(QueryItem::LikeRight(column, value.into_param_value()))
    }

    /// `like_right` where the condition holds; otherwise the wrapper unchanged.
    pub fn like_right_when<V: IntoParamValue>(self, condition: bool, column: &'a str, value: V) -> (r: Self)
        ensures
            !condition ==> r == self,
            condition ==> adds_item(self, r, QueryItemView::LikeRight(column@, value.spec_param())),
    {
        if !condition {
            return self;
        }
        self.like_right(column, value)
    }

    /// Adds the condition that the column is not matching the value's text anywhere.
    pub fn not_like<V: IntoParamValue>(self, column: &'a str, value: V) -> (r: Self)
        ensures
            adds_item(self, r, QueryItemView::NotLike(column@, value.spec_param())),
    {
        self.add_condition(QueryItem::NotLike(column, value.into_param_value()))
    }

    /// `not_like` where the condition holds; otherwise the wrapper unchanged.
    pub fn not_like_when<V: IntoParamValue>(self, condition: bool, column: &'a str, value: V) -> (r: Self)
        ensures
            !condition ==> r == self,
            condition ==> adds_item(self, r, QueryItemView::NotLike(column@, value.spec_param())),
    {
        if !condition {
            return self;
        }
        self.not_like(column, value)
    }

    /// Adds the condition that the column is not ending with the value's text.
    pub fn not_like_left<V: IntoParamValue>(self, column: &'a str, value: V) -> (r: Self)
        ensures
            adds_item(self, r, QueryItemView::NotLikeLeft(column@, value.spec_param())),
    {
        self.add_condition(QueryItem::NotLikeLeft(column, value.into_param_value()))
    }

    /// `not_like_left` where the condition holds; otherwise the wrapper unchanged.
    pub fn not_like_left_when<V: IntoParamValue>(self, condition: bool, column: &'a str, value: V) -> (r: Self)
        ensures
            !condition ==> r == self,
            condition ==> adds_item(self, r, QueryItemView::NotLikeLeft(column@, value.spec_param())),
    {
        if !condition {
            return self;
        }
        self.not_like_left(column, value)
    }

    /// Adds the condition that the column is not starting with the value's text.
    pub fn not_like_right<V: IntoParamValue>(self, column: &'a str, value: V) -> (r: Self)
        ensures
            adds_item(self, r, QueryItemView::NotLikeRight(column@, value.spec_param())),
    {
        self.add_condition(QueryItem::NotLikeRight(column, value.into_param_value()))
    }

    /// `not_like_right` where the condition holds; otherwise the wrapper unchanged.
    pub fn not_like_right_when<V: IntoParamValue>(self, condition: bool, column: &'a str, value: V) -> (r: Self)
        ensures
            !condition ==> r == self,
            condition ==> adds_item(self, r, QueryItemView::NotLikeRight(column@, value.spec_param())),
    {
        if !condition {
            return self;
        }
        self.not_like_right(column, value)
    }

    /// Adds the condition that the column lies between the two values.
    pub fn between<V: IntoParamValue, W: IntoParamValue>(self, column: &'a str, start_value: V, end_value: W) -> (r: Self)
        ensures
            adds_item(self, r, QueryItemView::Between(column@, start_value.spec_param(), end_value.spec_param())),
    {
        self.add_condition(QueryItem::Between(column, start_value.into_param_value(), end_value.into_param_value()))
    }

    /// `between` where the condition holds; otherwise the wrapper unchanged.
    pub fn between_when<V: IntoParamValue, W: IntoParamValue>(
        self,
        condition: bool,
        column: &'a str,
        start_value: V,
        end_value: W,
    ) -> (r: Self)
        ensures
            !condition ==> r == self,
            condition ==> adds_item(self, r, QueryItemView::Between(column@, start_value.spec_param(), end_value.spec_param())),
    {
        if !condition {
            return self;
        }
        self.between(column, start_value, end_value)
    }

    /// Adds the condition that the column is one of the values.
    pub fn in_values<V: IntoParamValue>(self, column: &'a str, values: Vec<V>) -> (r: Self)
        ensures
            adds_item(self, r, QueryItemView::In(column@, spec_params(values@))),
    {
        let converted = into_params(values);
        self.add_condition(QueryItem::In(column, converted))
    }

    /// `in_values` where the condition holds; otherwise the wrapper unchanged.
    pub fn in_values_when<V: IntoParamValue>(self, condition: bool, column: &'a str, values: Vec<V>) -> (r: Self)
        ensures
            !condition ==> r == self,
            condition ==> adds_item(self, r, QueryItemView::In(column@, spec_params(values@))),
    {
        if !condition {
            return self;
        }
        self.in_values(column, values)
    }

    /// Adds the condition that the column is none of the values.
    pub fn not_in_values<V: IntoParamValue>(self, column: &'a str, values: Vec<V>) -> (r: Self)
        ensures
            adds_item(self, r, QueryItemView::NotIn(column@, spec_params(values@))),
    {
        let converted = into_params(values);
        self.add_condition(QueryItem::NotIn(column, converted))
    }

    /// `not_in_values` where the condition holds; otherwise the wrapper unchanged.
    pub fn not_in_values_when<V: IntoParamValue>(self, condition: bool, column: &'a str, values: Vec<V>) -> (r: Self)
        ensures
            !condition ==> r == self,
            condition ==> adds_item(self, r, QueryItemView::NotIn(column@, spec_params(values@))),
    {
        if !condition {
            return self;
        }
        self.not_in_values(column, values)
    }

    /// Adds a piece of SQL used as it stands, with the values it binds.
    pub fn apply_sql<V: IntoParamValue>(self, sql: &'a str, params: Vec<V>) -> (r: Self)
        ensures
            adds_item(self, r, QueryItemView::ApplySql(sql@, spec_params(params@))),
    {
        let converted = into_params(params);
        self.add_condition(QueryItem::ApplySql(sql, converted))
    }

    /// `apply_sql` where the condition holds; otherwise the wrapper unchanged.
    pub fn apply_sql_when<V: IntoParamValue>(self, condition: bool, sql: &'a str, params: Vec<V>) -> (r: Self)
        ensures
            !condition ==> r == self,
            condition ==> adds_item(self, r, QueryItemView::ApplySql(sql@, spec_params(params@))),
    {
        if !condition {
            return self;
        }
        self.apply_sql(sql, params)
    }

    /// Adds the condition that the subquery has a row.
    pub fn exists_sql<V: IntoParamValue>(self, sql: &'a str, params: Vec<V>) -> (r: Self)
        ensures
            adds_item(self, r, QueryItemView::ExistsSql(sql@, spec_params(params@))),
    {
        let converted = into_params(params);
        self.add_condition(QueryItem::ExistsSql(sql, converted))
    }

    /// Adds the condition that the subquery has no row.
    pub fn not_exists_sql<V: IntoParamValue>(self, sql: &'a str, params: Vec<V>) -> (r: Self)
        ensures
            adds_item(self, r, QueryItemView::NotExistsSql(sql@, spec_params(params@))),
    {
        let converted = into_params(params);
        self.add_condition(QueryItem::NotExistsSql(sql, converted))
    }

    /// Adds the condition that the column is one of the rows of the subquery.
    pub fn in_sql(self, column: &'a str, sql: &str) -> (r: Self)
        ensures
            adds_item(self, r, QueryItemView::InSql(column@, sql@)),
    {
        self.add_condition(QueryItem::InSql(column, String::from_str(sql)))
    }

    /// `in_sql` where the condition holds; otherwise the wrapper unchanged.
    pub fn in_sql_when(self, condition: bool, column: &'a str, sql: &str) -> (r: Self)
        ensures
            !condition ==> r == self,
            condition ==> adds_item(self, r, QueryItemView::InSql(column@, sql@)),
    {
        if !condition {
            return self;
        }
        self.in_sql(column, sql)
    }

    /// Adds the condition that the column is none of the rows of the subquery.
    pub fn not_in_sql(self, column: &'a str, sql: &str) -> (r: Self)
        ensures
            adds_item(self, r, QueryItemView::NotInSql(column@, sql@)),
    {
        self.add_condition(QueryItem::NotInSql(column, String::from_str(sql)))
    }

    /// `not_in_sql` where the condition holds; otherwise the wrapper unchanged.
    pub fn not_in_sql_when(self, condition: bool, column: &'a str, sql: &str) -> (r: Self)
        ensures
            !condition ==> r == self,
            condition ==> adds_item(self, r, QueryItemView::NotInSql(column@, sql@)),
    {
        if !condition {
            return self;
        }
        self.not_in_sql(column, sql)
    }

    /// Adds the condition that the column is null.
    pub fn null(self, column: &'a str) -> (r: Self)
        ensures
            adds_item(self, r, QueryItemView::IsNull(column@)),
    {
        self.add_condition(QueryItem::IsNull(column))
    }

    /// `null` where the condition holds; otherwise the wrapper unchanged.
    pub fn null_when(self, condition: bool, column: &'a str) -> (r: Self)
        ensures
            !condition ==> r == self,
            condition ==> adds_item(self, r, QueryItemView::IsNull(column@)),
    {
        if !condition {
            return self;
        }
        self.null(column)
    }

    /// Adds the condition that the column is not null.
    pub fn not_null(self, column: &'a str) -> (r: Self)
        ensures
            adds_item(self, r, QueryItemView::IsNotNull(column@)),
    {
        self.add_condition(QueryItem::IsNotNull(column))
    }

    /// `not_null` where the condition holds; otherwise the wrapper unchanged.
    pub fn not_null_when(self, condition: bool, column: &'a str) -> (r: Self)
        ensures
            !condition ==> r == self,
            condition ==> adds_item(self, r, QueryItemView::IsNotNull(column@)),
    {
        if !condition {
            return self;
        }
        self.not_null(column)
    }

    /// Orders by the column, descending, after the orderings already given.
    pub fn order_by_desc(self, column: &'a str) -> (r: Self)
        ensures
            same_except(self.query, r.query, QueryPart::Order),
            r.query.order_by_types@ == self.query.order_by_types@.push((column, false)),
    {
        let mut w = self;
        w.query.order_by_types.push((column, false));
        w
    }

    /// `order_by_desc` where the condition holds; otherwise the wrapper unchanged.
    pub fn order_by_desc_when(self, condition: bool, column: &'a str) -> (r: Self)
        ensures
            !condition ==> r == self,
            condition ==> same_except(self.query, r.query, QueryPart::Order),
            condition ==> r.query.order_by_types@ == self.query.order_by_types@.push((column, false)),
    {
        if !condition {
            return self;
        }
        self.order_by_desc(column)
    }

    /// Orders by the column, ascending, after the orderings already given.
    pub fn order_by_asc(self, column: &'a str) -> (r: Self)
        ensures
            same_except(self.query, r.query, QueryPart::Order),
            r.query.order_by_types@ == self.query.order_by_types@.push((column, true)),
    {
        let mut w = self;
        w.query.order_by_types.push((column, true));
        w
    }

    /// `order_by_asc` where the condition holds; otherwise the wrapper unchanged.
    pub fn order_by_asc_when(self, condition: bool, column: &'a str) -> (r: Self)
        ensures
            !condition ==> r == self,
            condition ==> same_except(self.query, r.query, QueryPart::Order),
            condition ==> r.query.order_by_types@ == self.query.order_by_types@.push((column, true)),
    {
        if !condition {
            return self;
        }
        self.order_by_asc(column)
    }

    /// Orders by the column, ascending where `is_asc`, after the orderings
    /// already given.
    pub fn order_by(self, column: &'a str, is_asc: bool) -> (r: Self)
        ensures
            same_except(self.query, r.query, QueryPart::Order),
            r.query.order_by_types@ == self.query.order_by_types@.push((column, is_asc)),
    {
        let mut w = self;
        w.query.order_by_types.push((column, is_asc));
        w
    }

    /// `order_by` where the condition holds; otherwise the wrapper unchanged.
    pub fn order_by_when(self, condition: bool, column: &'a str, is_asc: bool) -> (r: Self)
        ensures
            !condition ==> r == self,
            condition ==> same_except(self.query, r.query, QueryPart::Order),
            condition ==> r.query.order_by_types@ == self.query.order_by_types@.push((column, is_asc)),
    {
        if !condition {
            return self;
        }
        self.order_by(column, is_asc)
    }

    /// Groups by the columns, after the groupings already given.
    pub fn group_by(self, columns: Vec<&'a str>) -> (r: Self)
        ensures
            same_except(self.query, r.query, QueryPart::GroupBy),
            r.query.group_by_columns@ == self.query.group_by_columns@ + columns@,
    {
        let mut w = self;
        let mut columns = columns;
        w.query.group_by_columns.append(&mut columns);
        w
    }

    /// Selects at most `size` rows.
    pub fn limit(self, size: u64) -> (r: Self)
        ensures
            same_except(self.query, r.query, QueryPart::Limit),
            r.query.limit_size == Some(size),
    {
        let mut w = self;
        w.query.limit_size = Some(size);
        w
    }

    /// Selects these columns too.
    pub fn select(self, columns: Vec<&'a str>) -> (r: Self)
        ensures
            same_except(self.query, r.query, QueryPart::Include),
            r.query.select_include_columns@ == self.query.select_include_columns@ + columns@,
    {
        let mut w = self;
        let mut columns = columns;
        w.query.select_include_columns.append(&mut columns);
        w
    }

    /// Leaves these columns out of the selection too.
    pub fn select_excludes(self, columns: Vec<&'a str>) -> (r: Self)
        ensures
            same_except(self.query, r.query, QueryPart::Exclude),
            r.query.select_exclude_columns@ == self.query.select_exclude_columns@ + columns@,
    {
        let mut w = self;
        let mut columns = columns;
        w.query.select_exclude_columns.append(&mut columns);
        w
    }

    /// Forgets everything added so far.
    pub fn clear(self) -> (r: Self)
        ensures
            is_blank(r),
    {
        let mut w = self;
        w.query.clear();
        w
    }

    /// `clear` where the condition holds; otherwise the wrapper unchanged.
    pub fn clear_when(self, condition: bool) -> (r: Self)
        ensures
            !condition ==> r == self,
            condition ==> is_blank(r),
    {
        if !condition {
            return self;
        }
        self.clear()
    }

    /// Adds a nested group: the conditions that `f` adds to a blank wrapper,
    /// joined by OR.
    pub fn or_wrapper<F: Fn(QueryWrapper<'a, E>) -> QueryWrapper<'a, E>>(self, f: F) -> (r: Self)
        requires
            forall|w: QueryWrapper<'a, E>| is_blank(w) ==> call_requires(f, (w,)),
        ensures
            exists|w0: QueryWrapper<'a, E>, w1: QueryWrapper<'a, E>|
                is_blank(w0) && call_ensures(f, (w0,), w1) && adds_group(self, r, w1, QueryRelation::Or),
    {
        let blank = QueryWrapper::new();
        let ghost w0 = blank;
        let sub = f(blank);
        let ghost w1 = sub;
        let mut group = sub.query.query_group;
        group.relation_type = QueryRelation::Or;
        let mut w = self;
        w.query.query_group.query_item_nodes.push(QueryItemNode::ItemGroup(group));
        proof {
            assert(top_nodes(w).drop_last() =~= top_nodes(self));
            assert(is_blank(w0) && call_ensures(f, (w0,), w1) && adds_group(self, w, w1, QueryRelation::Or));
        }
        w
    }

    /// `or_wrapper` where the condition holds; otherwise the wrapper unchanged.
    pub fn or_wrapper_when<F: Fn(QueryWrapper<'a, E>) -> QueryWrapper<'a, E>>(self, condition: bool, f: F) -> (r: Self)
        requires
            condition ==> forall|w: QueryWrapper<'a, E>| is_blank(w) ==> call_requires(f, (w,)),
        ensures
            !condition ==> r == self,
            condition ==> exists|w0: QueryWrapper<'a, E>, w1: QueryWrapper<'a, E>|
                is_blank(w0) && call_ensures(f, (w0,), w1) && adds_group(self, r, w1, QueryRelation::Or),
    {
        if !condition {
            return self;
        }
        self.or_wrapper(f)
    }

    /// Adds a nested group: the conditions that `f` adds to a blank wrapper,
    /// joined by AND.
    pub fn and_wrapper<F: Fn(QueryWrapper<'a, E>) -> QueryWrapper<'a, E>>(self, f: F) -> (r: Self)
        requires
            forall|w: QueryWrapper<'a, E>| is_blank(w) ==> call_requires(f, (w,)),
        ensures
            exists|w0: QueryWrapper<'a, E>, w1: QueryWrapper<'a, E>|
                is_blank(w0) && call_ensures(f, (w0,), w1) && adds_group(self, r, w1, QueryRelation::And),
    {
        let blank = QueryWrapper::new();
        let ghost w0 = blank;
        let sub = f(blank);
        let ghost w1 = sub;
        let mut group = sub.query.query_group;
        group.relation_type = QueryRelation::And;
        let mut w = self;
        w.query.query_group.query_item_nodes.push(QueryItemNode::ItemGroup(group));
        proof {
            assert(top_nodes(w).drop_last() =~= top_nodes(self));
            assert(is_blank(w0) && call_ensures(f, (w0,), w1) && adds_group(self, w, w1, QueryRelation::And));
        }
        w
    }

    /// `and_wrapper` where the condition holds; otherwise the wrapper unchanged.
    pub fn and_wrapper_when<F: Fn(QueryWrapper<'a, E>) -> QueryWrapper<'a, E>>(self, condition: bool, f: F) -> (r: Self)
        requires
            condition ==> forall|w: QueryWrapper<'a, E>| is_blank(w) ==> call_requires(f, (w,)),
        ensures
            !condition ==> r == self,
            condition ==> exists|w0: QueryWrapper<'a, E>, w1: QueryWrapper<'a, E>|
                is_blank(w0) && call_ensures(f, (w0,), w1) && adds_group(self, r, w1, QueryRelation::And),
    {
        if !condition {
            return self;
        }
        self.and_wrapper(f)
    }
}

} // verus!
