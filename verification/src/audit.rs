//! Audit-log records: who is written as the author, how long each column may be,
//! and the SQL text of the audit queries.
use vstd::prelude::*;

use crate::error::ServiceError;
use crate::sqlb::{
    add_field, add_order_by, and_where, and_where_eq, and_where_ge, and_where_in, and_where_le,
    anyhow_text, bind_text, build_sql, join_with, quote, select_from, select_sql, set_limit,
    set_offset, sql_quote, sqlb_fields, sqlb_limit, sqlb_offset, sqlb_order_by, sqlb_select_only,
    sqlb_table, sqlb_wheres, views,
};
use crate::text::{
    chars_of, concat2, concat3, concat4, concat5, dec, dec_signed, i64_text, str_eq, trim_ws,
    trimmed_range,
};

verus! {

/// The view of an optional string slice.
pub open spec fn opt_str_view(o: Option<&str>) -> Option<Seq<char>> {
    match o {
        Some(s) => Some(s@),
        None => None,
    }
}

/// The view of an optional string.
pub open spec fn opt_view(o: Option<String>) -> Option<Seq<char>> {
    match o {
        Some(s) => Some(s@),
        None => None,
    }
}

/// Something that can stand as the author of an audit entry.
pub trait AuditAuthorable {
    /// The author's user name.
    spec fn author_username(&self) -> Seq<char>;

    /// The author's email.
    spec fn author_email(&self) -> Seq<char>;

    /// The name to record in place of the user name, if any.
    spec fn author_username_override(&self) -> Option<Seq<char>>;

    /// The prefix of the token the author acted with, if any.
    spec fn author_token_prefix(&self) -> Option<Seq<char>>;

    fn username(&self) -> (r: &str)
        ensures
            r@ == self.author_username(),
    ;

    fn email(&self) -> (r: &str)
        ensures
            r@ == self.author_email(),
    ;

    fn username_override(&self) -> (r: Option<&str>)
        ensures
            opt_str_view(r) == self.author_username_override(),
    ;

    /// The prefix of the author's token; by default none is known.
    fn token_prefix(&self) -> (r: Option<&str>)
        ensures
            r matches Some(p) ==> self.author_token_prefix() == Some(p@),
        default_ensures
            r is None,
    {
        None
    }
}

/// An author given by value.
pub struct AuditAuthor {
    pub email: String,
    pub username: String,
    pub username_override: Option<String>,
    pub token_prefix: Option<String>,
}

fn as_opt_str(o: &Option<String>) -> (r: Option<&str>)
    ensures
        opt_str_view(r) == opt_view(*o),
{
    match o {
        Some(s) => Some(s.as_str()),
        None => None,
    }
}

impl AuditAuthorable for AuditAuthor {
    open spec fn author_username(&self) -> Seq<char> {
        self.username@
    }

    open spec fn author_email(&self) -> Seq<char> {
        self.email@
    }

    open spec fn author_username_override(&self) -> Option<Seq<char>> {
        opt_view(self.username_override)
    }

    open spec fn author_token_prefix(&self) -> Option<Seq<char>> {
        opt_view(self.token_prefix)
    }

    fn username(&self) -> (r: &str) {
        self.username.as_str()
    }

    fn email(&self) -> (r: &str) {
        self.email.as_str()
    }

    fn username_override(&self) -> (r: Option<&str>) {
        as_opt_str(&self.username_override)
    }

    fn token_prefix(&self) -> (r: Option<&str>)
        ensures
            opt_str_view(r) == self.author_token_prefix(),
    {
        as_opt_str(&self.token_prefix)
    }
}

/// Who acts on the database: a signed-in user, or the service itself on behalf of an author.
pub enum DbWithOptAuthed<'a, T> {
    UserDB { authed: &'a T },
    DB { audit_author: AuditAuthor },
}

impl<'a, T: AuditAuthorable> AuditAuthorable for DbWithOptAuthed<'a, T> {
    open spec fn author_username(&self) -> Seq<char> {
        match self {
            DbWithOptAuthed::UserDB { authed } => authed.author_username(),
            DbWithOptAuthed::DB { audit_author } => audit_author.username@,
        }
    }

    open spec fn author_email(&self) -> Seq<char> {
        match self {
            DbWithOptAuthed::UserDB { authed } => authed.author_email(),
            DbWithOptAuthed::DB { audit_author } => audit_author.email@,
        }
    }

    open spec fn author_username_override(&self) -> Option<Seq<char>> {
        match self {
            DbWithOptAuthed::UserDB { authed } => authed.author_username_override(),
            DbWithOptAuthed::DB { .. } => None,
        }
    }

    open spec fn author_token_prefix(&self) -> Option<Seq<char>> {
        None
    }

    fn username(&self) -> (r: &str) {
        match self {
            DbWithOptAuthed::UserDB { authed } => AuditAuthorable::username(*authed),
            DbWithOptAuthed::DB { audit_author } => audit_author.username(),
        }
    }

    fn email(&self) -> (r: &str) {
        match self {
            DbWithOptAuthed::UserDB { authed } => AuditAuthorable::email(*authed),
            DbWithOptAuthed::DB { audit_author } => audit_author.email(),
        }
    }

    fn username_override(&self) -> (r: Option<&str>) {
        match self {
            DbWithOptAuthed::UserDB { authed } => AuditAuthorable::username_override(*authed),
            DbWithOptAuthed::DB { .. } => None,
        }
    }

}

/// The first `n` characters of `s`, or all of `s` when it is shorter.
pub open spec fn truncated(s: Seq<char>, n: nat) -> Seq<char> {
    if s.len() > n {
        s.take(n as int)
    } else {
        s
    }
}

/// The first `max_chars` characters of `s` (all of `s` when it has no more).
pub fn truncate(s: &str, max_chars: usize) -> (r: &str)
    ensures
        r@ == truncated(s@, max_chars as nat),
{
    let n = s.unicode_len();
    if max_chars < n {
        s.substring_char(0, max_chars)
    } else {
        s
    }
}

/// A cut text fits its limit and is the start of the text; a text within the limit
/// is kept whole.
pub proof fn truncated_fits(s: Seq<char>, n: nat)
    ensures
        truncated(s, n).len() <= n,
        truncated(s, n).is_prefix_of(s),
        s.len() <= n ==> truncated(s, n) == s,
{
    assert(truncated(s, n) =~= s.take(truncated(s, n).len() as int));
}

/// The kinds of action that an audit entry records.
#[derive(PartialEq, Eq, Structural, Clone, Copy, Debug)]
pub enum ActionKind {
    Create,
    Update,
    Delete,
    Execute,
}

/// The columns of one new audit entry, ready to be inserted.
pub struct AuditRecord {
    pub workspace_id: String,
    pub username: String,
    pub operation: String,
    pub action_kind: ActionKind,
    pub resource: Option<String>,
    pub email: String,
}

/// The name that an entry records for its author: the override when there is one.
pub open spec fn recorded_name<A: AuditAuthorable>(author: &A) -> Seq<char> {
    match author.author_username_override() {
        Some(o) => o,
        None => author.author_username(),
    }
}

/// The limit on the user name, resource and email columns, in characters.
pub const NAME_MAX_CHARS: usize = 255;

/// The limit on the operation column, in characters.
pub const OPERATION_MAX_CHARS: usize = 50;

/// The entry that `audit_log` writes: the author's recorded name and email, the
/// operation and the resource, each cut to its column's limit.
pub fn audit_record<A: AuditAuthorable>(
    author: &A,
    operation: &str,
    action_kind: ActionKind,
    w_id: &str,
    resource: Option<&str>,
) -> (r: AuditRecord)
    ensures
        r.workspace_id@ == w_id@,
        r.username@ == truncated(recorded_name(author), 255),
        r.operation@ == truncated(operation@, 50),
        r.action_kind == action_kind,
        opt_view(r.resource) == match resource {
            Some(x) => Some(truncated(x@, 255)),
            None => None,
        },
        r.email@ == truncated(author.author_email(), 255),
{
    let username = match author.username_override() {
        Some(o) => o,
        None => author.username(),
    };
    let resource = match resource {
        Some(x) => Some(String::from_str(truncate(x, NAME_MAX_CHARS))),
        None => None,
    };
    AuditRecord {
        workspace_id: String::from_str(w_id),
        username: String::from_str(truncate(username, NAME_MAX_CHARS)),
        operation: String::from_str(truncate(operation, OPERATION_MAX_CHARS)),
        action_kind,
        resource,
        email: String::from_str(truncate(author.email(), NAME_MAX_CHARS)),
    }
}

/// The filters of an audit listing.
pub struct ListAuditLogQuery {
    pub username: Option<String>,
    pub operation: Option<String>,
    /// Comma-separated operations, any of which may match.
    pub operations: Option<String>,
    /// Comma-separated operations, none of which may match.
    pub exclude_operations: Option<String>,
    pub resource: Option<String>,
    pub action_kind: Option<String>,
    /// Latest time, in RFC 3339.
    pub before: Option<String>,
    /// Earliest time, in RFC 3339.
    pub after: Option<String>,
    pub all_workspaces: Option<bool>,
}

/// The columns that the audit queries select.
pub const AUDIT_COLS: &'static str =
    "workspace_id, id, timestamp, username, operation, action_kind, resource, parameters, span";

/// The source of an audit listing: both audit tables, one after the other.
pub open spec fn audit_from_text() -> Seq<char> {
    "(SELECT "@ + AUDIT_COLS@ + " FROM audit UNION ALL SELECT "@ + AUDIT_COLS@
        + " FROM audit_partitioned) AS t"@
}

/// `s` cut at each `sep`, as `str::split` with a `char` gives the pieces.
pub open spec fn split_pieces(s: Seq<char>, sep: char) -> Seq<Seq<char>>
    decreases s.len(),
{
    if s.len() == 0 {
        seq![Seq::<char>::empty()]
    } else {
        let p = split_pieces(s.drop_last(), sep);
        if s.last() == sep {
            p.push(Seq::<char>::empty())
        } else {
            p.update(p.len() - 1, p.last().push(s.last()))
        }
    }
}

/// The pieces trimmed of white space, the empty ones left out, the others quoted.
pub open spec fn quoted_nonempty(ps: Seq<Seq<char>>) -> Seq<Seq<char>>
    decreases ps.len(),
{
    if ps.len() == 0 {
        Seq::empty()
    } else {
        let r = quoted_nonempty(ps.drop_last());
        let t = trim_ws(ps.last());
        if t.len() > 0 {
            r.push(sql_quote(t))
        } else {
            r
        }
    }
}

/// The quoted operations of a comma-separated list.
pub open spec fn operation_list(s: Seq<char>) -> Seq<Seq<char>> {
    quoted_nonempty(split_pieces(s, ','))
}

/// The condition `field = 'value'`.
pub open spec fn eq_clause(field: Seq<char>, value: Seq<char>) -> Seq<char> {
    field + " = "@ + sql_quote(value)
}

/// Whether a listing reads every workspace: only from `admins`, and only when asked.
pub open spec fn reads_all_workspaces(w_id: Seq<char>, q: ListAuditLogQuery) -> bool {
    w_id == "admins"@ && q.all_workspaces == Some(true)
}

/// The conditions of an audit listing, in the order they are added.
pub open spec fn audit_wheres(w_id: Seq<char>, q: ListAuditLogQuery) -> Seq<Seq<char>> {
    let w0: Seq<Seq<char>> = if reads_all_workspaces(w_id, q) {
        Seq::empty()
    } else {
        seq![eq_clause("workspace_id"@, w_id)]
    };
    let w1 = match q.username {
        Some(u) => w0.push(eq_clause("username"@, u@)),
        None => w0,
    };
    let w2 = match q.operation {
        Some(o) => w1.push(eq_clause("operation"@, o@)),
        None => w1,
    };
    let w3 = match q.operations {
        Some(s) => if operation_list(s@).len() > 0 {
            w2.push("operation"@ + " IN ("@ + join_with(operation_list(s@), ", "@) + ")"@)
        } else {
            w2
        },
        None => w2,
    };
    let w4 = match q.exclude_operations {
        Some(s) => if operation_list(s@).len() > 0 {
            w3.push("operation NOT IN ("@ + join_with(operation_list(s@), ", "@) + ")"@)
        } else {
            w3
        },
        None => w3,
    };
    let w5 = match q.action_kind {
        Some(a) => w4.push(eq_clause("action_kind::text"@, a@)),
        None => w4,
    };
    let w6 = match q.resource {
        Some(r) => w5.push(eq_clause("resource"@, r@)),
        None => w5,
    };
    let w7 = match q.before {
        Some(b) => w6.push("timestamp"@ + " <= "@ + sql_quote(b@)),
        None => w6,
    };
    match q.after {
        Some(a) => w7.push("timestamp"@ + " >= "@ + sql_quote(a@)),
        None => w7,
    }
}

/// The text of an audit listing: newest first, one page of it.
pub open spec fn list_audit_text(
    w_id: Seq<char>,
    q: ListAuditLogQuery,
    per_page: nat,
    offset: nat,
) -> Seq<char> {
    select_sql(
        audit_from_text(),
        seq![AUDIT_COLS@],
        audit_wheres(w_id, q),
        seq!["timestamp DESC"@, "id DESC"@],
        Some(dec(per_page)),
        Some(dec(offset)),
    )
}

/// A listing is confined to the workspace it is made in: its first condition is that
/// workspace's, unless `admins` asks for every workspace.
pub proof fn listing_is_scoped(w_id: Seq<char>, q: ListAuditLogQuery)
    ensures
        !reads_all_workspaces(w_id, q) ==> audit_wheres(w_id, q).len() >= 1 && audit_wheres(
            w_id,
            q,
        )[0] == eq_clause("workspace_id"@, w_id),
{
}

/// A listing reads across workspaces only when `admins` asks for all of them: for any
/// other workspace, or when `all_workspaces` is not `Some(true)`, the listing's text is
/// the builder's select over both tables whose first condition is
/// `workspace_id = '<w_id>'`.
pub proof fn listing_reads_only_its_workspace(
    w_id: Seq<char>,
    q: ListAuditLogQuery,
    per_page: nat,
    offset: nat,
)
    requires
        !(w_id == "admins"@ && q.all_workspaces == Some(true)),
    ensures
        exists|ws: Seq<Seq<char>>|
            {
                &&& ws.len() >= 1
                &&& #[trigger] ws[0] == "workspace_id"@ + " = "@ + sql_quote(w_id)
                &&& list_audit_text(w_id, q, per_page, offset) == select_sql(
                    audit_from_text(),
                    seq![AUDIT_COLS@],
                    ws,
                    seq!["timestamp DESC"@, "id DESC"@],
                    Some(dec(per_page)),
                    Some(dec(offset)),
                )
            },
{
    let ws = audit_wheres(w_id, q);
    assert(ws.len() >= 1 && ws[0] == "workspace_id"@ + " = "@ + sql_quote(w_id));
}

/// The author columns of a service author are its own fields: the user name, the email,
/// and no override; those of a signed-in user are the user's own.
pub proof fn author_columns<'a, T: AuditAuthorable>(d: DbWithOptAuthed<'a, T>)
    ensures
        d matches DbWithOptAuthed::DB { audit_author } ==> {
            &&& d.author_email() == audit_author.email@
            &&& d.author_username() == audit_author.username@
            &&& d.author_username_override() is None
            &&& audit_author.author_email() == audit_author.email@
            &&& audit_author.author_username() == audit_author.username@
        },
        d matches DbWithOptAuthed::UserDB { authed } ==> {
            &&& d.author_email() == authed.author_email()
            &&& d.author_username() == authed.author_username()
            &&& d.author_username_override() == authed.author_username_override()
        },
{
}

/// The entry written for a service author holds its email, cut to 255 characters, in the
/// email column, and its user name as the recorded name.
pub proof fn service_author_entry<'a, T: AuditAuthorable>(d: DbWithOptAuthed<'a, T>)
    ensures
        d matches DbWithOptAuthed::DB { audit_author } ==> {
            &&& truncated(d.author_email(), 255) == truncated(audit_author.email@, 255)
            &&& recorded_name(&d) == audit_author.username@
        },
{
}

proof fn lemma_split_step(s: Seq<char>, i: int, sep: char)
    requires
        0 <= i < s.len(),
    ensures
        split_pieces(s.take(i + 1), sep) == if s[i] == sep {
            split_pieces(s.take(i), sep).push(Seq::<char>::empty())
        } else {
            let p = split_pieces(s.take(i), sep);
            p.update(p.len() - 1, p.last().push(s[i]))
        },
{
    assert(s.take(i + 1).drop_last() =~= s.take(i));
}

/// The quoted, non-empty, trimmed operations of a comma-separated list.
fn operation_list_exec(s: &str) -> (r: Vec<String>)
    ensures
        views(r@) == operation_list(s@),
{
    let v = chars_of(s);
    let n = v.len();
    let mut out: Vec<String> = Vec::new();
    let mut start: usize = 0;
    let mut i: usize = 0;
    proof {
        assert(v@.take(0) =~= Seq::<char>::empty());
    }
    while i < n
        invariant
            n == v@.len(),
            v@ == s@,
            start <= i <= n,
            split_pieces(v@.take(i as int), ',').len() >= 1,
            split_pieces(v@.take(i as int), ',').last() == v@.subrange(start as int, i as int),
            views(out@) == quoted_nonempty(split_pieces(v@.take(i as int), ',').drop_last()),
        decreases n - i,
    {
        let ghost p = split_pieces(v@.take(i as int), ',');
        proof {
            lemma_split_step(v@, i as int, ',');
        }
        if v[i] == ',' {
            let t = trimmed_range(&v, start, i);
            if t.as_str().unicode_len() > 0 {
                let q = quote(t.as_str());
                out.push(q);
            }
            proof {
                let np = p.push(Seq::<char>::empty());
                assert(np.drop_last() =~= p);
                assert(p =~= p.drop_last().push(p.last()));
                assert(views(out@) =~= quoted_nonempty(p));
            }
            start = i + 1;
        } else {
            proof {
                let np = p.update(p.len() - 1, p.last().push(v@[i as int]));
                assert(np.drop_last() =~= p.drop_last());
                assert(np.last() =~= v@.subrange(start as int, i + 1));
            }
        }
        i += 1;
    }
    let ghost p = split_pieces(v@.take(n as int), ',');
    let t = trimmed_range(&v, start, n);
    if t.as_str().unicode_len() > 0 {
        let q = quote(t.as_str());
        out.push(q);
    }
    proof {
        assert(v@.take(n as int) =~= v@);
        assert(p =~= p.drop_last().push(p.last()));
        assert(views(out@) =~= quoted_nonempty(p));
    }
    out
}

/// The items joined with `sep`.
fn join_strings(list: &Vec<String>, sep: &str) -> (r: String)
    ensures
        r@ == join_with(views(list@), sep@),
{
    let mut r = String::new();
    let mut i: usize = 0;
    while i < list.len()
        invariant
            i <= list@.len(),
            r@ == join_with(views(list@).take(i as int), sep@),
        decreases list@.len() - i,
    {
        proof {
            let t = views(list@).take(i + 1);
            assert(t.drop_last() =~= views(list@).take(i as int));
        }
        if i != 0 {
            r.append(sep);
        }
        r.append(list[i].as_str());
        proof {
            let t = views(list@).take(i + 1);
            if i == 0 {
                assert(views(list@).take(0) =~= Seq::<Seq<char>>::empty());
            }
        }
        i += 1;
    }
    assert(views(list@).take(list@.len() as int) =~= views(list@));
    r
}

/// The source text of an audit listing.
fn audit_from_exec() -> (r: String)
    ensures
        r@ == audit_from_text(),
{
    concat5(
        "(SELECT ",
        AUDIT_COLS,
        " FROM audit UNION ALL SELECT ",
        AUDIT_COLS,
        " FROM audit_partitioned) AS t",
    )
}

/// The SQL text of one page of an audit listing, newest entries first.
///
/// The listing reads both audit tables. It is scoped to `w_id` unless `w_id` is
/// `admins` and every workspace is asked for; each filter that `lq` sets adds a
/// condition.
pub fn list_audit_sql(w_id: &str, lq: &ListAuditLogQuery, per_page: usize, offset: usize) -> (r:
    Result<String, ServiceError>)
    ensures
        r is Ok,
        r matches Ok(s) && s@ == list_audit_text(w_id@, *lq, per_page as nat, offset as nat),
{
    let from = audit_from_exec();
    let mut sqlb = select_from(from.as_str());
    add_field(&mut sqlb, AUDIT_COLS);
    add_order_by(&mut sqlb, "timestamp", true);
    add_order_by(&mut sqlb, "id", true);
    set_limit(&mut sqlb, per_page);
    set_offset(&mut sqlb, offset);
    let ghost w_id_v = w_id@;
    let ghost q = *lq;

    let all = match lq.all_workspaces {
        Some(b) => b,
        None => false,
    };
    if !(str_eq(w_id, "admins") && all) {
        let w = String::from_str(w_id);
        and_where_eq(&mut sqlb, "workspace_id", bind_text(&w).as_str());
    }
    let ghost w0: Seq<Seq<char>> = if reads_all_workspaces(w_id_v, q) {
        Seq::empty()
    } else {
        seq![eq_clause("workspace_id"@, w_id_v)]
    };
    assert(sqlb_wheres(sqlb) =~= w0);
    if let Some(username) = &lq.username {
        and_where_eq(&mut sqlb, "username", bind_text(username).as_str());
    }
    if let Some(operation) = &lq.operation {
        and_where_eq(&mut sqlb, "operation", bind_text(operation).as_str());
    }
    if let Some(operations) = &lq.operations {
        let ops = operation_list_exec(operations.as_str());
        if ops.len() > 0 {
            and_where_in(&mut sqlb, "operation", ops.as_slice());
        }
    }
    if let Some(exclude) = &lq.exclude_operations {
        let ops = operation_list_exec(exclude.as_str());
        if ops.len() > 0 {
            let joined = join_strings(&ops, ", ");
            let cond = concat3("operation NOT IN (", joined.as_str(), ")");
            and_where(&mut sqlb, cond.as_str());
        }
    }
    if let Some(action_kind) = &lq.action_kind {
        and_where_eq(&mut sqlb, "action_kind::text", bind_text(action_kind).as_str());
    }
    if let Some(resource) = &lq.resource {
        and_where_eq(&mut sqlb, "resource", bind_text(resource).as_str());
    }
    if let Some(before) = &lq.before {
        and_where_le(&mut sqlb, "timestamp", bind_text(before).as_str());
    }
    if let Some(after) = &lq.after {
        and_where_ge(&mut sqlb, "timestamp", bind_text(after).as_str());
    }
    assert(sqlb_wheres(sqlb) =~= audit_wheres(w_id_v, q));
    assert(sqlb_fields(sqlb) =~= seq![AUDIT_COLS@]);
    proof {
        reveal_strlit("timestamp");
        reveal_strlit("id");
        reveal_strlit(" DESC");
        reveal_strlit("timestamp DESC");
        reveal_strlit("id DESC");
        assert("timestamp"@ + " DESC"@ =~= "timestamp DESC"@);
        assert("id"@ + " DESC"@ =~= "id DESC"@);
    }
    assert(sqlb_order_by(sqlb) =~= seq!["timestamp DESC"@, "id DESC"@]);
    proof {
        reveal_strlit("(SELECT ");
    }
    assert(sqlb_table(sqlb).len() > 0);
    match build_sql(&sqlb) {
        Ok(s) => Ok(s),
        Err(e) => Err(ServiceError::InternalErr(anyhow_text(&e))),
    }
}

/// The SQL text that fetches one audit entry by id (`$1`) and workspace (`$2`) from
/// either table.
pub open spec fn get_audit_text() -> Seq<char> {
    "SELECT "@ + AUDIT_COLS@ + " FROM (SELECT "@ + AUDIT_COLS@
        + " FROM audit WHERE id = $1 AND workspace_id = $2 UNION ALL SELECT "@ + AUDIT_COLS@
        + " FROM audit_partitioned WHERE id = $1 AND workspace_id = $2) AS t LIMIT 1"@
}

/// The SQL text of `get_audit`.
pub fn get_audit_sql() -> (r: String)
    ensures
        r@ == get_audit_text(),
{
    let mut r = concat4("SELECT ", AUDIT_COLS, " FROM (SELECT ", AUDIT_COLS);
    r.append(" FROM audit WHERE id = $1 AND workspace_id = $2 UNION ALL SELECT ");
    r.append(AUDIT_COLS);
    r.append(" FROM audit_partitioned WHERE id = $1 AND workspace_id = $2) AS t LIMIT 1");
    r
}

/// The message when an audit entry is missing.
pub open spec fn audit_not_found_text(id: int, w_id: Seq<char>) -> Seq<char> {
    "Audit log "@ + dec_signed(id) + " not found in workspace "@ + w_id
}

/// The entry that `get_audit` found, or `NotFound` naming the id and the workspace.
pub fn audit_or_not_found<T>(found: Option<T>, id: i32, w_id: &str) -> (r: Result<T, ServiceError>)
    ensures
        match found {
            Some(x) => r == Ok::<T, ServiceError>(x),
            None => r matches Err(ServiceError::NotFound(m)) && m@ == audit_not_found_text(id as int, w_id@),
        },
{
    match found {
        Some(x) => Ok(x),
        None => {
            let id_text = i64_text(id as i64);
            let mut m = concat3("Audit log ", id_text.as_str(), " not found in workspace ");
            m.append(w_id);
            Err(ServiceError::NotFound(m))
        },
    }
}

} // verus!
