//! The conditions, selections and ordering of a query, as a tree of nodes.
use vstd::prelude::*;
use crate::base::param::{ParamValue, ParamValueView, param_views};

verus! {

/// One condition of a `where` clause, on a column (or, for the raw-SQL
/// variants, on a piece of SQL text).
#[derive(Debug)]
pub enum QueryItem<'a> {
    Eq(&'a str, ParamValue),
    Ne(&'a str, ParamValue),
    Lt(&'a str, ParamValue),
    Le(&'a str, ParamValue),
    Gt(&'a str, ParamValue),
    Ge(&'a str, ParamValue),
    Between(&'a str, ParamValue, ParamValue),
    Like(&'a str, ParamValue),
    LikeLeft(&'a str, ParamValue),
    LikeRight(&'a str, ParamValue),
    NotLike(&'a str, ParamValue),
    NotLikeLeft(&'a str, ParamValue),
    NotLikeRight(&'a str, ParamValue),
    In(&'a str, Vec<ParamValue>),
    InSql(&'a str, String),
    NotIn(&'a str, Vec<ParamValue>),
    NotInSql(&'a str, String),
    IsNotNull(&'a str),
    IsNull(&'a str),
    ApplySql(&'a str, Vec<ParamValue>),
    ExistsSql(&'a str, Vec<ParamValue>),
    NotExistsSql(&'a str, Vec<ParamValue>),
}

/// The mathematical content of a condition.
pub enum QueryItemView {
    Eq(Seq<char>, ParamValueView),
    Ne(Seq<char>, ParamValueView),
    Lt(Seq<char>, ParamValueView),
    Le(Seq<char>, ParamValueView),
    Gt(Seq<char>, ParamValueView),
    Ge(Seq<char>, ParamValueView),
    Between(Seq<char>, ParamValueView, ParamValueView),
    Like(Seq<char>, ParamValueView),
    LikeLeft(Seq<char>, ParamValueView),
    LikeRight(Seq<char>, ParamValueView),
    NotLike(Seq<char>, ParamValueView),
    NotLikeLeft(Seq<char>, ParamValueView),
    NotLikeRight(Seq<char>, ParamValueView),
    In(Seq<char>, Seq<ParamValueView>),
    InSql(Seq<char>, Seq<char>),
    NotIn(Seq<char>, Seq<ParamValueView>),
    NotInSql(Seq<char>, Seq<char>),
    IsNotNull(Seq<char>),
    IsNull(Seq<char>),
    ApplySql(Seq<char>, Seq<ParamValueView>),
    ExistsSql(Seq<char>, Seq<ParamValueView>),
    NotExistsSql(Seq<char>, Seq<ParamValueView>),
}

impl<'a> View for QueryItem<'a> {
    type V = QueryItemView;

    open spec fn view(&self) -> QueryItemView {
        match self {
            QueryItem::Eq(c, v) => QueryItemView::Eq(c@, v@),
            QueryItem::Ne(c, v) => QueryItemView::Ne(c@, v@),
            QueryItem::Lt(c, v) => QueryItemView::Lt(c@, v@),
            QueryItem::Le(c, v) => QueryItemView::Le(c@, v@),
            QueryItem::Gt(c, v) => QueryItemView::Gt(c@, v@),
            QueryItem::Ge(c, v) => QueryItemView::Ge(c@, v@),
            QueryItem::Between(c, a, b) => QueryItemView::Between(c@, a@, b@),
            QueryItem::Like(c, v) => QueryItemView::Like(c@, v@),
            QueryItem::LikeLeft(c, v) => QueryItemView::LikeLeft(c@, v@),
            QueryItem::LikeRight(c, v) => QueryItemView::LikeRight(c@, v@),
            QueryItem::NotLike(c, v) => QueryItemView::NotLike(c@, v@),
            QueryItem::NotLikeLeft(c, v) => QueryItemView::NotLikeLeft(c@, v@),
            QueryItem::NotLikeRight(c, v) => QueryItemView::NotLikeRight(c@, v@),
            QueryItem::In(c, v) => QueryItemView::In(c@, param_views(v@)),
            QueryItem::InSql(c, s) => QueryItemView::InSql(c@, s@),
            QueryItem::NotIn(c, v) => QueryItemView::NotIn(c@, param_views(v@)),
            QueryItem::NotInSql(c, s) => QueryItemView::NotInSql(c@, s@),
            QueryItem::IsNotNull(c) => QueryItemView::IsNotNull(c@),
            QueryItem::IsNull(c) => QueryItemView::IsNull(c@),
            QueryItem::ApplySql(s, v) => QueryItemView::ApplySql(s@, param_views(v@)),
            QueryItem::ExistsSql(s, v) => QueryItemView::ExistsSql(s@, param_views(v@)),
            QueryItem::NotExistsSql(s, v) => QueryItemView::NotExistsSql(s@, param_views(v@)),
        }
    }
}

/// A choice of the selected columns, a limit or a grouping.
pub enum SelectType<'a> {
    Select(Vec<&'a str>),
    SelectExcludes(Vec<&'a str>),
    Limit(usize),
    GroupBy(Vec<&'a str>),
}

/// An ordering on a column.
pub enum OrderByType<'a> {
    OrderByDesc(&'a str),
    OrderByAsc(&'a str),
    OrderBy(&'a str, bool),
}

/// How the nodes of a group are combined.
#[derive(Debug, Clone, Copy, PartialEq, Eq, Structural)]
pub enum QueryRelation {
    And,
    Or,
}

/// The SQL keyword of a relation, with a space on each side.
pub open spec fn relation_text(r: QueryRelation) -> Seq<char> {
    match r {
        QueryRelation::And => " AND "@,
        QueryRelation::Or => " OR "@,
    }
}

impl QueryRelation {
    /// " AND " or " OR ".
    pub fn to_sql(&self) -> (r: &'static str)
        ensures
            r@ == relation_text(*self),
    {
        proof {
            reveal_strlit(" AND ");
            reveal_strlit(" OR ");
        }
        match self {
            QueryRelation::And => " AND ",
            QueryRelation::Or => " OR ",
        }
    }
}

/// A group of nodes combined by one relation.
pub struct QueryItemGroup<'a> {
    pub query_item_nodes: Vec<QueryItemNode<'a>>,
    pub relation_type: QueryRelation,
}

/// A node of a condition tree: one condition, or a nested group.
pub enum QueryItemNode<'a> {
    Item(QueryItem<'a>),
    ItemGroup(QueryItemGroup<'a>),
}

impl<'a> QueryItemGroup<'a> {
    /// An empty group whose nodes are joined by AND.
    pub fn and() -> (r: Self)
        ensures
            r.query_item_nodes@.len() == 0,
            r.relation_type == QueryRelation::And,
    {
        QueryItemGroup { query_item_nodes: Vec::new(), relation_type: QueryRelation::And }
    }

    /// An empty group whose nodes are joined by OR.
    pub fn or() -> (r: Self)
        ensures
            r.query_item_nodes@.len() == 0,
            r.relation_type == QueryRelation::Or,
    {
        QueryItemGroup { query_item_nodes: Vec::new(), relation_type: QueryRelation::Or }
    }

    /// The same as `and`.
    pub fn new() -> (r: Self)
        ensures
            r.query_item_nodes@.len() == 0,
            r.relation_type == QueryRelation::And,
    {
        Self::and()
    }

    /// Removes every node and sets the relation back to AND.
    pub fn clear(&mut self)
        ensures
            final(self).query_item_nodes@.len() == 0,
            final(self).relation_type == QueryRelation::And,
    {
        self.query_item_nodes.clear();
        self.relation_type = QueryRelation::And;
    }
}

/// A whole query: its condition tree, the included and excluded columns,
/// the ordering, the grouping and the limit.
pub struct Query<'a> {
    pub query_group: QueryItemGroup<'a>,
    pub select_include_columns: Vec<&'a str>,
    pub select_exclude_columns: Vec<&'a str>,
    pub order_by_types: Vec<(&'a str, bool)>,
    pub group_by_columns: Vec<&'a str>,
    pub limit_size: Option<u64>,
}

/// A query that selects everything: no condition, no column choice, no
/// ordering, no grouping and no limit, with AND at the top.
pub open spec fn is_blank_query<'a>(q: Query<'a>) -> bool {
    &&& q.query_group.query_item_nodes@.len() == 0
    &&& q.query_group.relation_type == QueryRelation::And
    &&& q.select_include_columns@.len() == 0
    &&& q.select_exclude_columns@.len() == 0
    &&& q.order_by_types@.len() == 0
    &&& q.group_by_columns@.len() == 0
    &&& q.limit_size is None
}

impl<'a> Query<'a> {
    /// Whether the query has no condition.
    pub fn is_empty(&self) -> (r: bool)
        ensures
            r <==> self.query_group.query_item_nodes@.len() == 0,
    {
        self.query_group.query_item_nodes.len() == 0
    }

    /// A query that selects everything.
    pub fn new() -> (r: Self)
        ensures
            is_blank_query(r),
    {
        Query {
            query_group: QueryItemGroup::new(),
            select_include_columns: Vec::new(),
            select_exclude_columns: Vec::new(),
            order_by_types: Vec::new(),
            group_by_columns: Vec::new(),
            limit_size: None,
        }
    }

    /// Forgets every condition, column choice, ordering, grouping and limit.
    pub fn clear(&mut self)
        ensures
            is_blank_query(*final(self)),
    {
        self.query_group.clear();
        self.select_include_columns.clear();
        self.select_exclude_columns.clear();
        self.order_by_types.clear();
        self.group_by_columns.clear();
        self.limit_size = None;
    }
}

} // verus!
