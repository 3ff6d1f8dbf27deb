//! The SQL text builder of the `sql_builder` crate, as the audit queries use it.
//!
//! A builder is treated as a collection of clauses: its table, its fields, its
//! `WHERE` conditions, its `ORDER BY` terms, its `LIMIT` and its `OFFSET`. Each
//! method that the library calls is given a contract over those contents, as the
//! crate's source (version 3.1.1) shows it.
use vstd::prelude::*;

use crate::text::dec;
use sql_builder::bind::Bind;

verus! {

#[verifier::external_type_specification]
#[verifier::external_body]
pub struct ExSqlBuilder(sql_builder::SqlBuilder);

#[verifier::external_type_specification]
#[verifier::external_body]
pub struct ExAnyhowError(anyhow::Error);

/// The table (or `FROM` text) of a builder.
pub uninterp spec fn sqlb_table(b: sql_builder::SqlBuilder) -> Seq<char>;

/// The fields of a builder, in the order they were added.
pub uninterp spec fn sqlb_fields(b: sql_builder::SqlBuilder) -> Seq<Seq<char>>;

/// The `WHERE` conditions of a builder, in the order they were added.
pub uninterp spec fn sqlb_wheres(b: sql_builder::SqlBuilder) -> Seq<Seq<char>>;

/// The `ORDER BY` terms of a builder, in the order they were added.
pub uninterp spec fn sqlb_order_by(b: sql_builder::SqlBuilder) -> Seq<Seq<char>>;

/// The `LIMIT` text of a builder, if one was set.
pub uninterp spec fn sqlb_limit(b: sql_builder::SqlBuilder) -> Option<Seq<char>>;

/// The `OFFSET` text of a builder, if one was set.
pub uninterp spec fn sqlb_offset(b: sql_builder::SqlBuilder) -> Option<Seq<char>>;

/// Whether a builder is a plain `SELECT ... FROM`: made by `select_from`, with no
/// join, `DISTINCT`, `GROUP BY`, `HAVING` or `UNION` part.
pub uninterp spec fn sqlb_select_only(b: sql_builder::SqlBuilder) -> bool;

/// Each condition put between parentheses.
pub open spec fn parenthesized(ws: Seq<Seq<char>>) -> Seq<Seq<char>> {
    ws.map_values(|w: Seq<char>| "("@ + w + ")"@)
}

/// The `WHERE` part: none, the one condition, or each condition in parentheses joined
/// with ` AND `.
pub open spec fn where_part(ws: Seq<Seq<char>>) -> Seq<char> {
    if ws.len() == 0 {
        Seq::empty()
    } else if ws.len() == 1 {
        " WHERE "@ + ws[0]
    } else {
        " WHERE "@ + join_with(parenthesized(ws), " AND "@)
    }
}

/// `keyword` and the text, when a text is set.
pub open spec fn optional_part(keyword: Seq<char>, v: Option<Seq<char>>) -> Seq<char> {
    match v {
        Some(t) => keyword + t,
        None => Seq::empty(),
    }
}

/// The text that `SqlBuilder::sql` gives for a plain select with these contents:
/// `SELECT`, the fields (or `*`), `FROM` and the table, the conditions, the order
/// terms, the limit, the offset and a closing `;`.
pub open spec fn select_sql(
    table: Seq<char>,
    fields: Seq<Seq<char>>,
    wheres: Seq<Seq<char>>,
    order_by: Seq<Seq<char>>,
    limit: Option<Seq<char>>,
    offset: Option<Seq<char>>,
) -> Seq<char> {
    "SELECT "@ + (if fields.len() == 0 {
        "*"@
    } else {
        join_with(fields, ", "@)
    }) + " FROM "@ + table + where_part(wheres) + (if order_by.len() == 0 {
        Seq::empty()
    } else {
        " ORDER BY "@ + join_with(order_by, ", "@)
    }) + optional_part(" LIMIT "@, limit) + optional_part(" OFFSET "@, offset) + ";"@
}

/// `s` with each single quote doubled, as `sql_builder::esc` writes it.
pub open spec fn sql_escape(s: Seq<char>) -> Seq<char>
    decreases s.len(),
{
    if s.len() == 0 {
        Seq::empty()
    } else if s.last() == '\'' {
        sql_escape(s.drop_last()) + seq!['\'', '\'']
    } else {
        sql_escape(s.drop_last()).push(s.last())
    }
}

/// `s` escaped and put between single quotes, as `sql_builder::quote` writes it.
pub open spec fn sql_quote(s: Seq<char>) -> Seq<char> {
    seq!['\''] + sql_escape(s) + seq!['\'']
}

/// The text that a quoted SQL string literal stands for: each doubled quote read as one.
pub open spec fn sql_unescape(t: Seq<char>) -> Seq<char>
    decreases t.len(),
{
    if t.len() == 0 {
        Seq::empty()
    } else if t.len() >= 2 && t.last() == '\'' && t[t.len() - 2] == '\'' {
        sql_unescape(t.take(t.len() - 2)).push('\'')
    } else {
        sql_unescape(t.drop_last()).push(t.last())
    }
}

/// A quoted value reads back as itself: the text between the quotes that `quote`
/// writes stands for exactly the value, whatever quotes the value holds.
pub proof fn quoted_value_reads_back(s: Seq<char>)
    ensures
        sql_unescape(sql_escape(s)) == s,
    decreases s.len(),
{
    if s.len() > 0 {
        quoted_value_reads_back(s.drop_last());
        let e = sql_escape(s.drop_last());
        if s.last() == '\'' {
            let t = e + seq!['\'', '\''];
            assert(t.take(t.len() - 2) =~= e);
        } else {
            let t = e.push(s.last());
            assert(t.drop_last() =~= e);
        }
        assert(s.drop_last().push(s.last()) =~= s);
    }
}

/// The items joined with `sep` between each two, as `[String]::join` writes them.
pub open spec fn join_with(items: Seq<Seq<char>>, sep: Seq<char>) -> Seq<char>
    decreases items.len(),
{
    if items.len() == 0 {
        Seq::empty()
    } else if items.len() == 1 {
        items[0]
    } else {
        join_with(items.drop_last(), sep) + sep + items.last()
    }
}

/// The views of a list of strings.
pub open spec fn views(v: Seq<String>) -> Seq<Seq<char>> {
    v.map_values(|s: String| s@)
}

/// All contents of `b` but the fields are those of `a`.
pub open spec fn same_but_fields(a: sql_builder::SqlBuilder, b: sql_builder::SqlBuilder) -> bool {
    &&& sqlb_table(a) == sqlb_table(b)
    &&& sqlb_wheres(a) == sqlb_wheres(b)
    &&& sqlb_order_by(a) == sqlb_order_by(b)
    &&& sqlb_limit(a) == sqlb_limit(b)
    &&& sqlb_offset(a) == sqlb_offset(b)
    &&& sqlb_select_only(a) == sqlb_select_only(b)
}

/// All contents of `b` but the conditions are those of `a`.
pub open spec fn same_but_wheres(a: sql_builder::SqlBuilder, b: sql_builder::SqlBuilder) -> bool {
    &&& sqlb_table(a) == sqlb_table(b)
    &&& sqlb_fields(a) == sqlb_fields(b)
    &&& sqlb_order_by(a) == sqlb_order_by(b)
    &&& sqlb_limit(a) == sqlb_limit(b)
    &&& sqlb_offset(a) == sqlb_offset(b)
    &&& sqlb_select_only(a) == sqlb_select_only(b)
}

/// All contents of `b` but the order terms are those of `a`.
pub open spec fn same_but_order(a: sql_builder::SqlBuilder, b: sql_builder::SqlBuilder) -> bool {
    &&& sqlb_table(a) == sqlb_table(b)
    &&& sqlb_fields(a) == sqlb_fields(b)
    &&& sqlb_wheres(a) == sqlb_wheres(b)
    &&& sqlb_limit(a) == sqlb_limit(b)
    &&& sqlb_offset(a) == sqlb_offset(b)
    &&& sqlb_select_only(a) == sqlb_select_only(b)
}

/// `SqlBuilder::select_from`: a plain select from `table`, with nothing else set.
#[verifier::external_body]
pub(crate) fn select_from(table: &str) -> (b: sql_builder::SqlBuilder)
    ensures
        sqlb_table(b) == table@,
        sqlb_fields(b) == Seq::<Seq<char>>::empty(),
        sqlb_wheres(b) == Seq::<Seq<char>>::empty(),
        sqlb_order_by(b) == Seq::<Seq<char>>::empty(),
        sqlb_limit(b) == None::<Seq<char>>,
        sqlb_offset(b) == None::<Seq<char>>,
        sqlb_select_only(b),
{
    sql_builder::SqlBuilder::select_from(table)
}

/// `SqlBuilder::field`: appends one field.
#[verifier::external_body]
pub(crate) fn add_field(b: &mut sql_builder::SqlBuilder, field: &str)
    ensures
        sqlb_fields(*final(b)) == sqlb_fields(*old(b)).push(field@),
        same_but_fields(*old(b), *final(b)),
{
    b.field(field);
}

/// `SqlBuilder::order_by`: appends one order term, with ` DESC` behind it when `desc`.
#[verifier::external_body]
pub(crate) fn add_order_by(b: &mut sql_builder::SqlBuilder, field: &str, desc: bool)
    ensures
        sqlb_order_by(*final(b)) == sqlb_order_by(*old(b)).push(
            if desc {
                field@ + " DESC"@
            } else {
                field@
            },
        ),
        same_but_order(*old(b), *final(b)),
{
    b.order_by(field, desc);
}

/// `SqlBuilder::limit` with an integer: the limit becomes its decimal writing.
#[verifier::external_body]
pub(crate) fn set_limit(b: &mut sql_builder::SqlBuilder, n: usize)
    ensures
        sqlb_limit(*final(b)) == Some(dec(n as nat)),
        sqlb_table(*final(b)) == sqlb_table(*old(b)),
        sqlb_fields(*final(b)) == sqlb_fields(*old(b)),
        sqlb_wheres(*final(b)) == sqlb_wheres(*old(b)),
        sqlb_order_by(*final(b)) == sqlb_order_by(*old(b)),
        sqlb_offset(*final(b)) == sqlb_offset(*old(b)),
        sqlb_select_only(*final(b)) == sqlb_select_only(*old(b)),
{
    b.limit(n);
}

/// `SqlBuilder::offset` with an integer: the offset becomes its decimal writing.
#[verifier::external_body]
pub(crate) fn set_offset(b: &mut sql_builder::SqlBuilder, n: usize)
    ensures
        sqlb_offset(*final(b)) == Some(dec(n as nat)),
        sqlb_table(*final(b)) == sqlb_table(*old(b)),
        sqlb_fields(*final(b)) == sqlb_fields(*old(b)),
        sqlb_wheres(*final(b)) == sqlb_wheres(*old(b)),
        sqlb_order_by(*final(b)) == sqlb_order_by(*old(b)),
        sqlb_limit(*final(b)) == sqlb_limit(*old(b)),
        sqlb_select_only(*final(b)) == sqlb_select_only(*old(b)),
{
    b.offset(n);
}

/// `SqlBuilder::and_where`: appends the condition as written.
#[verifier::external_body]
pub(crate) fn and_where(b: &mut sql_builder::SqlBuilder, cond: &str)
    ensures
        sqlb_wheres(*final(b)) == sqlb_wheres(*old(b)).push(cond@),
        same_but_wheres(*old(b), *final(b)),
{
    b.and_where(cond);
}

/// `SqlBuilder::and_where_eq`: appends `field = value`.
#[verifier::external_body]
pub(crate) fn and_where_eq(b: &mut sql_builder::SqlBuilder, field: &str, value: &str)
    ensures
        sqlb_wheres(*final(b)) == sqlb_wheres(*old(b)).push(field@ + " = "@ + value@),
        same_but_wheres(*old(b), *final(b)),
{
    b.and_where_eq(field, value);
}

/// `SqlBuilder::and_where_le`: appends `field <= value`.
#[verifier::external_body]
pub(crate) fn and_where_le(b: &mut sql_builder::SqlBuilder, field: &str, value: &str)
    ensures
        sqlb_wheres(*final(b)) == sqlb_wheres(*old(b)).push(field@ + " <= "@ + value@),
        same_but_wheres(*old(b), *final(b)),
{
    b.and_where_le(field, value);
}

/// `SqlBuilder::and_where_ge`: appends `field >= value`.
#[verifier::external_body]
pub(crate) fn and_where_ge(b: &mut sql_builder::SqlBuilder, field: &str, value: &str)
    ensures
        sqlb_wheres(*final(b)) == sqlb_wheres(*old(b)).push(field@ + " >= "@ + value@),
        same_but_wheres(*old(b), *final(b)),
{
    b.and_where_ge(field, value);
}

/// `SqlBuilder::and_where_in`: appends `field IN (a, b, ...)`, the items as given.
#[verifier::external_body]
pub(crate) fn and_where_in(b: &mut sql_builder::SqlBuilder, field: &str, list: &[String])
    ensures
        sqlb_wheres(*final(b)) == sqlb_wheres(*old(b)).push(
            field@ + " IN ("@ + join_with(views(list@), ", "@) + ")"@,
        ),
        same_but_wheres(*old(b), *final(b)),
{
    b.and_where_in(field, list);
}

/// `SqlBuilder::sql`: a plain select gives its text, and fails only when its table is empty.
#[verifier::external_body]
pub(crate) fn build_sql(b: &sql_builder::SqlBuilder) -> (r: Result<String, anyhow::Error>)
    ensures
        sqlb_select_only(*b) ==> (r is Ok <==> sqlb_table(*b).len() > 0),
        sqlb_select_only(*b) && r is Ok ==> r->Ok_0@ == select_sql(
            sqlb_table(*b),
            sqlb_fields(*b),
            sqlb_wheres(*b),
            sqlb_order_by(*b),
            sqlb_limit(*b),
            sqlb_offset(*b),
        ),
{
    b.sql()
}

/// `sql_builder::quote`: the text between single quotes, each quote inside doubled.
#[verifier::external_body]
pub(crate) fn quote(s: &str) -> (r: String)
    ensures
        r@ == sql_quote(s@),
{
    sql_builder::quote(s)
}

/// `Bind::bind` on `"?"` with a string: the placeholder becomes the quoted string.
#[verifier::external_body]
pub(crate) fn bind_text(value: &String) -> (r: String)
    ensures
        r@ == sql_quote(value@),
{
    "?".bind(value)
}

/// The message of an `anyhow::Error`, by its `Display`; nothing is stated of it.
#[verifier::external_body]
pub(crate) fn anyhow_text(e: &anyhow::Error) -> String {
    e.to_string()
}

} // verus!
