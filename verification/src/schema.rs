//! Table definitions and their rendering as SQL text.
//!
//! Migrations are held as structured data — a table name and a list of
//! typed columns — so that properties such as "the log table has exactly
//! the six semantic columns plus an identity column" are facts about data,
//! not about a string. The text handed to the database engine is rendered
//! from that data, and the rendering carries an exact contract.

use vstd::prelude::*;

verus! {

/// The storage type and constraints of one column.
#[derive(Debug, Clone, Copy, PartialEq, Eq, Structural)]
pub enum ColumnKind {
    /// Auto-incrementing integer identity, assigned by the storage layer.
    IdentityPrimaryKey,
    /// Integer primary key without auto-increment (used by the ledger).
    IntegerPrimaryKey,
    /// Required text; an empty string is allowed.
    RequiredText,
    /// Required integer.
    RequiredInteger,
}

/// One column of a table definition.
#[derive(Debug)]
pub struct ColumnDef {
    pub name: String,
    pub kind: ColumnKind,
}

/// One table of the schema: a name and its columns in order.
#[derive(Debug)]
pub struct TableDef {
    pub name: String,
    pub columns: Vec<ColumnDef>,
}

/// The SQL fragment that declares a column of the given kind.
pub open spec fn spec_kind_sql(k: ColumnKind) -> Seq<char> {
    match k {
        ColumnKind::IdentityPrimaryKey => "INTEGER PRIMARY KEY AUTOINCREMENT"@,
        ColumnKind::IntegerPrimaryKey => "INTEGER PRIMARY KEY"@,
        ColumnKind::RequiredText => "TEXT NOT NULL"@,
        ColumnKind::RequiredInteger => "INTEGER NOT NULL"@,
    }
}

/// The SQL fragment that declares one column: its name, a space, its kind.
pub open spec fn spec_column_sql(c: ColumnDef) -> Seq<char> {
    c.name@ + " "@ + spec_kind_sql(c.kind)
}

/// The comma-separated column list of a CREATE TABLE statement.
pub open spec fn spec_columns_sql(cs: Seq<ColumnDef>) -> Seq<char>
    decreases cs.len(),
{
    if cs.len() == 0 {
        Seq::empty()
    } else if cs.len() == 1 {
        spec_column_sql(cs[0])
    } else {
        spec_columns_sql(cs.drop_last()) + ", "@ + spec_column_sql(cs.last())
    }
}

/// The full CREATE TABLE statement for a table definition. IF NOT EXISTS
/// keeps re-running a bootstrap harmless at the engine level as well.
pub open spec fn spec_create_table_sql(t: TableDef) -> Seq<char> {
    "CREATE TABLE IF NOT EXISTS "@ + t.name@ + " ("@ + spec_columns_sql(t.columns@) + ")"@
}

/// The SQL fragment for a column kind, as text.
fn kind_sql(k: ColumnKind) -> (s: &'static str)
    ensures
        s@ == spec_kind_sql(k),
{
    match k {
        ColumnKind::IdentityPrimaryKey => "INTEGER PRIMARY KEY AUTOINCREMENT",
        ColumnKind::IntegerPrimaryKey => "INTEGER PRIMARY KEY",
        ColumnKind::RequiredText => "TEXT NOT NULL",
        ColumnKind::RequiredInteger => "INTEGER NOT NULL",
    }
}

/// Renders the CREATE TABLE statement for `t`, exactly as
/// `spec_create_table_sql` describes it.
pub fn render_create_table(t: &TableDef) -> (s: String)
    ensures
        s@ == spec_create_table_sql(*t),
{
    let mut s = String::from_str("CREATE TABLE IF NOT EXISTS ");
    s.append(t.name.as_str());
    s.append(" (");
    let n = t.columns.len();
    let prefix: Ghost<Seq<char>> = Ghost(
        "CREATE TABLE IF NOT EXISTS "@ + t.name@ + " ("@,
    );
    let mut i: usize = 0;
    while i < n
        invariant
            n == t.columns@.len(),
            0 <= i <= n,
            s@ == prefix@ + spec_columns_sql(t.columns@.subrange(0, i as int)),
        decreases n - i,
    {
        if i > 0 {
            s.append(", ");
        }
        s.append(t.columns[i].name.as_str());
        s.append(" ");
        s.append(kind_sql(t.columns[i].kind));
        proof {
            let pre = t.columns@.subrange(0, i as int);
            let cur = t.columns@.subrange(0, i as int + 1);
            assert(cur.drop_last() =~= pre);
            assert(cur.last() == t.columns@[i as int]);
            if i == 0 {
                assert(spec_columns_sql(cur) == spec_column_sql(t.columns@[0]));
                assert(s@ =~= prefix@ + spec_columns_sql(cur));
            } else {
                assert(spec_columns_sql(cur) == spec_columns_sql(pre) + ", "@ + spec_column_sql(
                    cur.last(),
                ));
                assert(s@ =~= prefix@ + spec_columns_sql(cur));
            }
        }
        i = i + 1;
    }
    proof {
        assert(t.columns@.subrange(0, n as int) =~= t.columns@);
    }
    s.append(")");
    proof {
        assert(s@ =~= spec_create_table_sql(*t));
    }
    s
}

} // verus!
