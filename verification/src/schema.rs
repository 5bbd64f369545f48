//! The relational table catalog and the generation of its SQL script files.
//!
//! Generation is pure: it returns the scripts as named text files, and the
//! surrounding build program writes them to disk. The create-if-absent write
//! policy is modelled by [`files_to_write`], which keeps only the scripts
//! whose file name is not already present.

use vstd::prelude::*;
use vstd::string::StringExecFns;
use crate::mode::Mode;

verus! {

/// Ghost model of one column: its name, SQL type, and constraint text
/// (empty when the column has no constraints).
pub struct ColumnModel {
    /// The column's name.
    pub name: Seq<char>,
    /// The column's SQL type.
    pub sql_type: Seq<char>,
    /// Trailing constraint text, or empty.
    pub constraints: Seq<char>,
}

/// Ghost model of one foreign key: the referencing column and the referenced
/// table. Every reference in the catalog targets the referenced table's
/// `CODE` primary key.
pub struct ForeignKeyModel {
    /// The referencing column's name.
    pub column: Seq<char>,
    /// The referenced table's name.
    pub table: Seq<char>,
}

/// Ghost model of one table definition.
pub struct TableModel {
    /// The table's SQL name.
    pub name: Seq<char>,
    /// The stem of the table's script file name.
    pub file_stem: Seq<char>,
    /// The table's columns, in declared order.
    pub columns: Seq<ColumnModel>,
    /// The table's foreign keys, in declared order.
    pub foreign_keys: Seq<ForeignKeyModel>,
}

/// Ghost model of one generated script file.
pub struct FileModel {
    /// The file's name.
    pub name: Seq<char>,
    /// The file's full text.
    pub content: Seq<char>,
}

/// One column of a table definition.
#[derive(Debug)]
pub struct Column {
    /// The column's name.
    pub name: String,
    /// The column's SQL type.
    pub sql_type: String,
    /// Trailing constraint text, or empty.
    pub constraints: String,
}

impl View for Column {
    type V = ColumnModel;

    open spec fn view(&self) -> ColumnModel {
        ColumnModel { name: self.name@, sql_type: self.sql_type@, constraints: self.constraints@ }
    }
}

impl DeepView for Column {
    type V = ColumnModel;

    open spec fn deep_view(&self) -> ColumnModel {
        self.view()
    }
}

/// One foreign-key reference of a table definition.
#[derive(Debug)]
pub struct ForeignKey {
    /// The referencing column's name.
    pub column: String,
    /// The referenced table's name.
    pub table: String,
}

impl View for ForeignKey {
    type V = ForeignKeyModel;

    open spec fn view(&self) -> ForeignKeyModel {
        ForeignKeyModel { column: self.column@, table: self.table@ }
    }
}

impl DeepView for ForeignKey {
    type V = ForeignKeyModel;

    open spec fn deep_view(&self) -> ForeignKeyModel {
        self.view()
    }
}

/// One relational table: a name, the stem of its script file name, an ordered
/// sequence of columns, and its foreign-key references.
#[derive(Debug)]
pub struct TableDefinition {
    /// The table's SQL name.
    pub name: String,
    /// The stem of the table's script file name.
    pub file_stem: String,
    /// The table's columns, in declared order.
    pub columns: Vec<Column>,
    /// The table's foreign keys, in declared order.
    pub foreign_keys: Vec<ForeignKey>,
}

impl View for TableDefinition {
    type V = TableModel;

    open spec fn view(&self) -> TableModel {
        TableModel {
            name: self.name@,
            file_stem: self.file_stem@,
            columns: self.columns.deep_view(),
            foreign_keys: self.foreign_keys.deep_view(),
        }
    }
}

impl DeepView for TableDefinition {
    type V = TableModel;

    open spec fn deep_view(&self) -> TableModel {
        self.view()
    }
}

/// One generated script file: its name and its full text.
#[derive(Debug)]
pub struct ScriptFile {
    /// The file's name.
    pub name: String,
    /// The file's full text.
    pub content: String,
}

impl View for ScriptFile {
    type V = FileModel;

    open spec fn view(&self) -> FileModel {
        FileModel { name: self.name@, content: self.content@ }
    }
}

impl DeepView for ScriptFile {
    type V = FileModel;

    open spec fn deep_view(&self) -> FileModel {
        self.view()
    }
}

impl Clone for ScriptFile {
    fn clone(&self) -> (r: Self)
        ensures
            r@ == self@,
    {
        ScriptFile { name: self.name.clone(), content: self.content.clone() }
    }
}

// ---------------------------------------------------------------------------
// Rendering of SQL text
// ---------------------------------------------------------------------------

/// The text of one column inside a `CREATE TABLE` statement.
pub open spec fn render_column(c: ColumnModel) -> Seq<char> {
    c.name + " "@ + c.sql_type + (if c.constraints.len() == 0 {
        Seq::<char>::empty()
    } else {
        " "@ + c.constraints
    })
}

/// The text of one foreign-key clause inside a `CREATE TABLE` statement.
pub open spec fn render_foreign_key(f: ForeignKeyModel) -> Seq<char> {
    "FOREIGN KEY("@ + f.column + ") REFERENCES "@ + f.table + "(CODE)"@
}

/// The comma-separated column list of a `CREATE TABLE` statement.
pub open spec fn render_columns(cols: Seq<ColumnModel>) -> Seq<char>
    decreases cols.len(),
{
    if cols.len() == 0 {
        Seq::<char>::empty()
    } else if cols.len() == 1 {
        render_column(cols.last())
    } else {
        render_columns(cols.drop_last()) + ", "@ + render_column(cols.last())
    }
}

/// The foreign-key clauses of a `CREATE TABLE` statement, each preceded by a
/// separator that joins it to the column list.
pub open spec fn render_foreign_keys(fks: Seq<ForeignKeyModel>) -> Seq<char>
    decreases fks.len(),
{
    if fks.len() == 0 {
        Seq::<char>::empty()
    } else {
        render_foreign_keys(fks.drop_last()) + ", "@ + render_foreign_key(fks.last())
    }
}

/// The complete `CREATE TABLE` statement of one table.
pub open spec fn render_create_table(t: TableModel) -> Seq<char> {
    "CREATE TABLE "@ + t.name + "("@ + render_columns(t.columns) + render_foreign_keys(
        t.foreign_keys,
    ) + ")"@
}

/// Builds the `CREATE TABLE` statement text of one table.
pub fn create_table_statement(t: &TableDefinition) -> (s: String)
    ensures
        s@ == render_create_table(t.deep_view()),
{
    let ghost m = t.deep_view();
    let mut s: String = "CREATE TABLE ".to_owned();
    s.append(t.name.as_str());
    s.append("(");
    let mut j: usize = 0;
    while j < t.columns.len()
        invariant
            j <= t.columns.len(),
            m == t.deep_view(),
            s@ == "CREATE TABLE "@ + m.name + "("@ + render_columns(m.columns.take(j as int)),
        decreases t.columns.len() - j,
    {
        if j > 0 {
            s.append(", ");
        }
        let c = &t.columns[j];
        s.append(c.name.as_str());
        s.append(" ");
        s.append(c.sql_type.as_str());
        if !c.constraints.as_str().is_empty() {
            s.append(" ");
            s.append(c.constraints.as_str());
        }
        proof {
            assert(m.columns.take(j + 1).drop_last() =~= m.columns.take(j as int));
            assert(m.columns.take(j + 1).last() == m.columns[j as int]);
            assert(s@ =~= "CREATE TABLE "@ + m.name + "("@ + render_columns(
                m.columns.take(j + 1),
            ));
        }
        j += 1;
    }
    proof {
        assert(m.columns.take(t.columns.len() as int) =~= m.columns);
    }
    let mut k: usize = 0;
    while k < t.foreign_keys.len()
        invariant
            k <= t.foreign_keys.len(),
            m == t.deep_view(),
            s@ == "CREATE TABLE "@ + m.name + "("@ + render_columns(m.columns)
                + render_foreign_keys(m.foreign_keys.take(k as int)),
        decreases t.foreign_keys.len() - k,
    {
        let f = &t.foreign_keys[k];
        s.append(", ");
        s.append("FOREIGN KEY(");
        s.append(f.column.as_str());
        s.append(") REFERENCES ");
        s.append(f.table.as_str());
        s.append("(CODE)");
        proof {
            assert(m.foreign_keys.take(k + 1).drop_last() =~= m.foreign_keys.take(k as int));
            assert(m.foreign_keys.take(k + 1).last() == m.foreign_keys[k as int]);
            assert(s@ =~= "CREATE TABLE "@ + m.name + "("@ + render_columns(m.columns)
                + render_foreign_keys(m.foreign_keys.take(k + 1)));
        }
        k += 1;
    }
    proof {
        assert(m.foreign_keys.take(t.foreign_keys.len() as int) =~= m.foreign_keys);
    }
    s.append(")");
    s
}

// ---------------------------------------------------------------------------
// File names and well-formedness
// ---------------------------------------------------------------------------

/// The file-name character that a table-name character maps to: upper-case
/// ASCII letters are lower-cased, underscores become hyphens, and every other
/// character stays as it is.
pub open spec fn file_char(c: char) -> char {
    if c == '_' {
        '-'
    } else if c == 'A' {
        'a'
    } else if c == 'B' {
        'b'
    } else if c == 'C' {
        'c'
    } else if c == 'D' {
        'd'
    } else if c == 'E' {
        'e'
    } else if c == 'F' {
        'f'
    } else if c == 'G' {
        'g'
    } else if c == 'H' {
        'h'
    } else if c == 'I' {
        'i'
    } else if c == 'J' {
        'j'
    } else if c == 'K' {
        'k'
    } else if c == 'L' {
        'l'
    } else if c == 'M' {
        'm'
    } else if c == 'N' {
        'n'
    } else if c == 'O' {
        'o'
    } else if c == 'P' {
        'p'
    } else if c == 'Q' {
        'q'
    } else if c == 'R' {
        'r'
    } else if c == 'S' {
        's'
    } else if c == 'T' {
        't'
    } else if c == 'U' {
        'u'
    } else if c == 'V' {
        'v'
    } else if c == 'W' {
        'w'
    } else if c == 'X' {
        'x'
    } else if c == 'Y' {
        'y'
    } else if c == 'Z' {
        'z'
    } else {
        c
    }
}

/// The file-name stem derived from a table name: each character mapped by
/// [`file_char`].
pub open spec fn file_stem_of(name: Seq<char>) -> Seq<char> {
    name.map_values(|c: char| file_char(c))
}

/// The full script file name of one table.
pub open spec fn script_file_name(t: TableModel) -> Seq<char> {
    t.file_stem + ".sql"@
}

/// A well-formed table: it has at least one column, and its file stem is
/// derived from its name.
pub open spec fn wf_table(t: TableModel) -> bool {
    &&& t.columns.len() > 0
    &&& t.file_stem == file_stem_of(t.name)
}

/// A well-formed catalog: every table is well formed, table names are unique,
/// and every foreign key references a table that stands earlier in the
/// catalog, so that scripts can be executed in declared order.
pub open spec fn wf_catalog(ts: Seq<TableModel>) -> bool {
    &&& forall|i: int| 0 <= i < ts.len() ==> wf_table(#[trigger] ts[i])
    &&& forall|i: int, j: int| 0 <= i < j < ts.len() ==> ts[i].name != ts[j].name
    &&& forall|i: int, k: int|
        0 <= i < ts.len() && 0 <= k < ts[i].foreign_keys.len() ==> exists|j: int|
            0 <= j < i && ts[j].name == (#[trigger] ts[i].foreign_keys[k]).table
}

// ---------------------------------------------------------------------------
// The drop script and the generated file set
// ---------------------------------------------------------------------------

/// The drop statement of one table. `IF EXISTS` makes the statement valid
/// whether or not the table is present, so the aggregate script does not
/// depend on any execution order.
pub open spec fn drop_clause(name: Seq<char>) -> Seq<char> {
    "DROP TABLE IF EXISTS "@ + name + "; "@
}

/// The names of a catalog's tables, in declared order.
pub open spec fn catalog_names(ts: Seq<TableModel>) -> Seq<Seq<char>> {
    ts.map_values(|t: TableModel| t.name)
}

/// The aggregate drop script: one [`drop_clause`] per name, concatenated in
/// order.
pub open spec fn drop_script(names: Seq<Seq<char>>) -> Seq<char>
    decreases names.len(),
{
    if names.len() == 0 {
        Seq::<char>::empty()
    } else {
        drop_script(names.drop_last()) + drop_clause(names.last())
    }
}

/// Where a table's drop clause starts inside the aggregate drop script: the
/// total length of the clauses of the tables before it.
pub open spec fn clause_start(names: Seq<Seq<char>>, i: int) -> int {
    drop_script(names.take(i)).len() as int
}

/// One step of [`clause_start`]: the next clause starts where the previous
/// one ends.
pub proof fn lemma_clause_start_step(names: Seq<Seq<char>>, i: int)
    requires
        0 <= i < names.len(),
    ensures
        clause_start(names, i + 1) == clause_start(names, i) + drop_clause(names[i]).len(),
{
    assert(names.take(i + 1).drop_last() =~= names.take(i));
    assert(names.take(i + 1).last() == names[i]);
}

/// Every clause start lies within the script.
pub proof fn lemma_clause_start_bound(names: Seq<Seq<char>>, i: int)
    requires
        0 <= i <= names.len(),
    ensures
        clause_start(names, i) <= drop_script(names).len(),
    decreases names.len(),
{
    if i == names.len() {
        assert(names.take(i) =~= names);
    } else {
        let pre = names.drop_last();
        assert(names.take(i) =~= pre.take(i));
        lemma_clause_start_bound(pre, i);
    }
}

/// The aggregate drop script holds exactly one drop clause per catalog
/// table: table `i`'s clause occupies the segment starting at
/// [`clause_start`], and those segments tile the entire script, so no clause
/// is missing, none is duplicated, and nothing else stands between them.
/// Each clause uses `IF EXISTS`, so the script is valid in any execution
/// order.
pub proof fn lemma_drop_script_one_clause_per_table(names: Seq<Seq<char>>)
    ensures
        forall|i: int| #![trigger drop_clause(names[i])]
            0 <= i < names.len() ==> drop_script(names).subrange(
                clause_start(names, i),
                clause_start(names, i) + drop_clause(names[i]).len(),
            ) == drop_clause(names[i]),
        clause_start(names, names.len() as int) == drop_script(names).len(),
    decreases names.len(),
{
    assert(names.take(names.len() as int) =~= names);
    if names.len() > 0 {
        let pre = names.drop_last();
        lemma_drop_script_one_clause_per_table(pre);
        assert(names.take(names.len() - 1) =~= pre);
        assert forall|i: int| #![trigger drop_clause(names[i])]
            0 <= i < names.len() implies drop_script(names).subrange(
                clause_start(names, i),
                clause_start(names, i) + drop_clause(names[i]).len(),
            ) == drop_clause(names[i]) by {
            if i < names.len() - 1 {
                assert(names.take(i) =~= pre.take(i));
                assert(pre[i] == names[i]);
                lemma_clause_start_step(pre, i);
                lemma_clause_start_bound(pre, i + 1);
                assert(drop_script(names).subrange(
                    clause_start(names, i),
                    clause_start(names, i) + drop_clause(names[i]).len(),
                ) =~= drop_script(pre).subrange(
                    clause_start(pre, i),
                    clause_start(pre, i) + drop_clause(pre[i]).len(),
                ));
            } else {
                assert(names.take(i) =~= pre);
                assert(drop_script(names).subrange(
                    clause_start(names, i),
                    clause_start(names, i) + drop_clause(names[i]).len(),
                ) =~= drop_clause(names[i]));
            }
        };
    }
}

/// Builds the aggregate drop script for a catalog.
pub fn drop_tables_script(catalog: &Vec<TableDefinition>) -> (s: String)
    ensures
        s@ == drop_script(catalog_names(catalog.deep_view())),
{
    let ghost names = catalog_names(catalog.deep_view());
    let mut s = String::new();
    let mut i: usize = 0;
    while i < catalog.len()
        invariant
            i <= catalog.len(),
            names == catalog_names(catalog.deep_view()),
            s@ == drop_script(names.take(i as int)),
        decreases catalog.len() - i,
    {
        s.append("DROP TABLE IF EXISTS ");
        s.append(catalog[i].name.as_str());
        s.append("; ");
        proof {
            assert(names.take(i + 1).drop_last() =~= names.take(i as int));
            assert(names.take(i + 1).last() == names[i as int]);
            assert(s@ =~= drop_script(names.take(i + 1)));
        }
        i += 1;
    }
    proof {
        assert(names.take(catalog.len() as int) =~= names);
    }
    s
}

/// The script file of one table: name derived from the table's name, content
/// its `CREATE TABLE` statement.
pub open spec fn table_file(t: TableModel) -> FileModel {
    FileModel { name: script_file_name(t), content: render_create_table(t) }
}

/// The aggregate drop-script file of a catalog.
pub open spec fn drop_file(ts: Seq<TableModel>) -> FileModel {
    FileModel { name: "drop-tables.sql"@, content: drop_script(catalog_names(ts)) }
}

/// All schema script files of a catalog: the aggregate drop file first, then
/// one file per table in declared order.
pub open spec fn schema_files(ts: Seq<TableModel>) -> Seq<FileModel> {
    seq![drop_file(ts)] + ts.map_values(|t: TableModel| table_file(t))
}

/// The schema generator's failure. No production schema strategy is
/// defined — the production path is an intentional, documented gap — so in
/// production mode generation fails loudly instead of guessing one, before
/// any file is planned.
#[derive(Clone, Copy, Debug, PartialEq, Eq, Structural)]
pub enum SchemaError {
    /// Production schema generation is intentionally unimplemented.
    ProductionUnimplemented,
}

impl SchemaError {
    /// A descriptive one-line message.
    pub fn message(&self) -> (m: String)
        ensures
            m@ == "production schema generation is not implemented"@,
    {
        "production schema generation is not implemented".to_owned()
    }
}

/// Builds the script file of one table: per the table invariant, the file
/// is named after the table — its name lower-cased, underscores replaced
/// with hyphens, extension `.sql` — and holds its `CREATE TABLE` statement.
pub fn generate_table_script(t: &TableDefinition) -> (f: ScriptFile)
    requires
        wf_table(t.deep_view()),
    ensures
        f.deep_view() == table_file(t.deep_view()),
        f.deep_view().name == file_stem_of(t.deep_view().name) + ".sql"@,
{
    let mut name: String = t.file_stem.as_str().to_owned();
    name.append(".sql");
    let content = create_table_statement(t);
    ScriptFile { name, content }
}

/// Generates the schema script files for a catalog.
///
/// In development mode the result is the aggregate drop file followed by one
/// `CREATE TABLE` file per table. In production mode no schema strategy is
/// defined, so generation fails loudly with
/// [`SchemaError::ProductionUnimplemented`] before planning any file; the
/// orchestrator propagates that error and the build aborts without touching
/// the file system.
pub fn generate_database_tables(catalog: &Vec<TableDefinition>, mode: Mode) -> (r: Result<
    Vec<ScriptFile>,
    SchemaError,
>)
    requires
        wf_catalog(catalog.deep_view()),
    ensures
        r is Err <==> mode == Mode::Production,
        r is Err ==> r->Err_0 == SchemaError::ProductionUnimplemented,
        r is Ok ==> r->Ok_0.deep_view() == schema_files(catalog.deep_view()),
{
    let ghost m = catalog.deep_view();
    let mut files: Vec<ScriptFile> = Vec::new();
    if mode == Mode::Production {
        return Result::Err(SchemaError::ProductionUnimplemented);
    }
    let drop_content = drop_tables_script(catalog);
    files.push(ScriptFile { name: "drop-tables.sql".to_owned(), content: drop_content });
    let mut i: usize = 0;
    while i < catalog.len()
        invariant
            i <= catalog.len(),
            m == catalog.deep_view(),
            wf_catalog(m),
            files.deep_view() =~= seq![drop_file(m)] + m.map_values(
                |t: TableModel| table_file(t),
            ).take(i as int),
        decreases catalog.len() - i,
    {
        let ghost prev = files.deep_view();
        proof {
            assert(wf_table(m[i as int]));
        }
        let f = generate_table_script(&catalog[i]);
        files.push(f);
        proof {
            let mapped = m.map_values(|t: TableModel| table_file(t));
            assert(files.deep_view() =~= prev.push(table_file(m[i as int])));
            assert(mapped.take(i + 1) =~= mapped.take(i as int) + seq![mapped[i as int]]);
            assert(files.deep_view() =~= seq![drop_file(m)] + mapped.take(i + 1));
        }
        i += 1;
    }
    proof {
        let mapped = m.map_values(|t: TableModel| table_file(t));
        assert(mapped.take(catalog.len() as int) =~= mapped);
        assert(files.deep_view() =~= schema_files(m));
    }
    Result::Ok(files)
}

// ---------------------------------------------------------------------------
// The fixed catalog
// ---------------------------------------------------------------------------

/// A column model from its parts.
pub open spec fn col(name: Seq<char>, sql_type: Seq<char>, constraints: Seq<char>) -> ColumnModel {
    ColumnModel { name, sql_type, constraints }
}

/// A foreign-key model from its parts.
pub open spec fn fk(column: Seq<char>, table: Seq<char>) -> ForeignKeyModel {
    ForeignKeyModel { column, table }
}

/// The auto-incremented integer primary key that most catalog tables use.
pub open spec fn code_column() -> ColumnModel {
    col("CODE"@, "INT"@, "PRIMARY KEY AUTO_INCREMENT"@)
}

/// The brands dimension.
pub open spec fn brands_table() -> TableModel {
    TableModel {
        name: "ITEM_BRANDS"@,
        file_stem: "item-brands"@,
        columns: seq![
            code_column(),
            col("ANAME"@, "VARCHAR(60)"@, ""@),
            col("ENAME"@, "VARCHAR(60)"@, "NOT NULL"@),
        ],
        foreign_keys: seq![],
    }
}

/// The groups dimension.
pub open spec fn groups_table() -> TableModel {
    TableModel {
        name: "ITEM_GROUPS"@,
        file_stem: "item-groups"@,
        columns: seq![
            code_column(),
            col("ANAME"@, "VARCHAR(60)"@, ""@),
            col("ENAME"@, "VARCHAR(60)"@, "NOT NULL"@),
        ],
        foreign_keys: seq![],
    }
}

/// The first sub-group tier, referencing its group.
pub open spec fn subgroups_table() -> TableModel {
    TableModel {
        name: "ITEM_SUBGROUPS"@,
        file_stem: "item-subgroups"@,
        columns: seq![
            code_column(),
            col("ANAME"@, "VARCHAR(60)"@, "NOT NULL"@),
            col("ENAME"@, "VARCHAR(60)"@, ""@),
            col("GROUP_CODE"@, "INT"@, "NOT NULL"@),
        ],
        foreign_keys: seq![fk("GROUP_CODE"@, "ITEM_GROUPS"@)],
    }
}

/// The second sub-group tier, referencing the first.
pub open spec fn subgroups1_table() -> TableModel {
    TableModel {
        name: "ITEM_SUBGROUPS1"@,
        file_stem: "item-subgroups1"@,
        columns: seq![
            code_column(),
            col("ANAME"@, "VARCHAR(60)"@, ""@),
            col("ENAME"@, "VARCHAR(60)"@, "NOT NULL"@),
            col("SUBGROUP_CODE"@, "INT"@, "NOT NULL"@),
        ],
        foreign_keys: seq![fk("SUBGROUP_CODE"@, "ITEM_SUBGROUPS"@)],
    }
}

/// The units dimension. It stands before the items table, which references
/// it.
pub open spec fn units_table() -> TableModel {
    TableModel {
        name: "UNITS"@,
        file_stem: "units"@,
        columns: seq![
            code_column(),
            col("ANAME"@, "VARCHAR(18)"@, ""@),
            col("ENAME"@, "VARCHAR(18)"@, "NOT NULL"@),
            col("UNIT_QUANTITY"@, "INT"@, "NOT NULL"@),
        ],
        foreign_keys: seq![],
    }
}

/// The central items table, referencing every dimension.
pub open spec fn items_table() -> TableModel {
    TableModel {
        name: "ITEMS"@,
        file_stem: "items"@,
        columns: seq![
            code_column(),
            col("ANAME"@, "VARCHAR(60)"@, ""@),
            col("ENAME"@, "VARCHAR(60)"@, "NOT NULL"@),
            col("GROUP_CODE"@, "INT"@, "NOT NULL"@),
            col("SUBGROUP_CODE"@, "INT"@, ""@),
            col("SUBGROUP1_CODE"@, "INT"@, ""@),
            col("UNIT_CODE"@, "INT"@, "NOT NULL"@),
            col("UNIT_CODE_2"@, "INT"@, ""@),
            col("UNIT_CODE_3"@, "INT"@, ""@),
            col("BRAND_CODE"@, "INT"@, ""@),
            col("ITEM_DESC"@, "VARCHAR(100)"@, ""@),
            col("AVAILABLE_QTY"@, "INT"@, "DEFAULT 0"@),
        ],
        foreign_keys: seq![
            fk("UNIT_CODE"@, "UNITS"@),
            fk("UNIT_CODE_2"@, "UNITS"@),
            fk("UNIT_CODE_3"@, "UNITS"@),
            fk("GROUP_CODE"@, "ITEM_GROUPS"@),
            fk("SUBGROUP_CODE"@, "ITEM_SUBGROUPS"@),
            fk("SUBGROUP1_CODE"@, "ITEM_SUBGROUPS1"@),
            fk("BRAND_CODE"@, "ITEM_BRANDS"@),
        ],
    }
}

/// The year/source dimension, keyed by a text code.
pub open spec fn year_source_table() -> TableModel {
    TableModel {
        name: "YEAR_SOURCE"@,
        file_stem: "year-source"@,
        columns: seq![
            col("CODE"@, "VARCHAR(30)"@, "PRIMARY KEY"@),
            col("ANAME"@, "VARCHAR(30)"@, ""@),
            col("ENAME"@, "VARCHAR(30)"@, "NOT NULL"@),
            col("FROM_DATE"@, "DATE"@, "NOT NULL"@),
            col("TO_DATE"@, "DATE"@, "NOT NULL"@),
        ],
        foreign_keys: seq![],
    }
}

/// The fixed seven-table catalog, in an order that respects foreign-key
/// dependencies: a referenced table always stands before the table that
/// references it.
pub open spec fn catalog_spec() -> Seq<TableModel> {
    seq![
        brands_table(),
        groups_table(),
        subgroups_table(),
        subgroups1_table(),
        units_table(),
        items_table(),
        year_source_table(),
    ]
}

/// A column from its parts.
fn mk_column(name: &str, sql_type: &str, constraints: &str) -> (c: Column)
    ensures
        c@ == col(name@, sql_type@, constraints@),
{
    Column { name: name.to_owned(), sql_type: sql_type.to_owned(), constraints: constraints.to_owned() }
}

/// A foreign key from its parts.
fn mk_fk(column: &str, table: &str) -> (f: ForeignKey)
    ensures
        f@ == fk(column@, table@),
{
    ForeignKey { column: column.to_owned(), table: table.to_owned() }
}

/// A table definition from its parts.
fn mk_table(name: &str, file_stem: &str, columns: Vec<Column>, foreign_keys: Vec<ForeignKey>) -> (t:
    TableDefinition)
    ensures
        t@ == (TableModel {
            name: name@,
            file_stem: file_stem@,
            columns: columns.deep_view(),
            foreign_keys: foreign_keys.deep_view(),
        }),
{
    TableDefinition {
        name: name.to_owned(),
        file_stem: file_stem.to_owned(),
        columns,
        foreign_keys,
    }
}

/// Constructs the fixed catalog.
pub fn catalog() -> (c: Vec<TableDefinition>)
    ensures
        c.deep_view() == catalog_spec(),
        wf_catalog(c.deep_view()),
{
    let brands = mk_table(
        "ITEM_BRANDS",
        "item-brands",
        vec![
            mk_column("CODE", "INT", "PRIMARY KEY AUTO_INCREMENT"),
            mk_column("ANAME", "VARCHAR(60)", ""),
            mk_column("ENAME", "VARCHAR(60)", "NOT NULL"),
        ],
        Vec::new(),
    );
    proof {
        assert(brands@.columns =~= brands_table().columns);
        assert(brands@.foreign_keys =~= brands_table().foreign_keys);
        assert(brands@ == brands_table());
    }
    let groups = mk_table(
        "ITEM_GROUPS",
        "item-groups",
        vec![
            mk_column("CODE", "INT", "PRIMARY KEY AUTO_INCREMENT"),
            mk_column("ANAME", "VARCHAR(60)", ""),
            mk_column("ENAME", "VARCHAR(60)", "NOT NULL"),
        ],
        Vec::new(),
    );
    proof {
        assert(groups@.columns =~= groups_table().columns);
        assert(groups@.foreign_keys =~= groups_table().foreign_keys);
        assert(groups@ == groups_table());
    }
    let subgroups = mk_table(
        "ITEM_SUBGROUPS",
        "item-subgroups",
        vec![
            mk_column("CODE", "INT", "PRIMARY KEY AUTO_INCREMENT"),
            mk_column("ANAME", "VARCHAR(60)", "NOT NULL"),
            mk_column("ENAME", "VARCHAR(60)", ""),
            mk_column("GROUP_CODE", "INT", "NOT NULL"),
        ],
        vec![mk_fk("GROUP_CODE", "ITEM_GROUPS")],
    );
    proof {
        assert(subgroups@.columns =~= subgroups_table().columns);
        assert(subgroups@.foreign_keys =~= subgroups_table().foreign_keys);
        assert(subgroups@ == subgroups_table());
    }
    let subgroups1 = mk_table(
        "ITEM_SUBGROUPS1",
        "item-subgroups1",
        vec![
            mk_column("CODE", "INT", "PRIMARY KEY AUTO_INCREMENT"),
            mk_column("ANAME", "VARCHAR(60)", ""),
            mk_column("ENAME", "VARCHAR(60)", "NOT NULL"),
            mk_column("SUBGROUP_CODE", "INT", "NOT NULL"),
        ],
        vec![mk_fk("SUBGROUP_CODE", "ITEM_SUBGROUPS")],
    );
    proof {
        assert(subgroups1@.columns =~= subgroups1_table().columns);
        assert(subgroups1@.foreign_keys =~= subgroups1_table().foreign_keys);
        assert(subgroups1@ == subgroups1_table());
    }
    let units = mk_table(
        "UNITS",
        "units",
        vec![
            mk_column("CODE", "INT", "PRIMARY KEY AUTO_INCREMENT"),
            mk_column("ANAME", "VARCHAR(18)", ""),
            mk_column("ENAME", "VARCHAR(18)", "NOT NULL"),
            mk_column("UNIT_QUANTITY", "INT", "NOT NULL"),
        ],
        Vec::new(),
    );
    proof {
        assert(units@.columns =~= units_table().columns);
        assert(units@.foreign_keys =~= units_table().foreign_keys);
        assert(units@ == units_table());
    }
    let items = mk_table(
        "ITEMS",
        "items",
        vec![
            mk_column("CODE", "INT", "PRIMARY KEY AUTO_INCREMENT"),
            mk_column("ANAME", "VARCHAR(60)", ""),
            mk_column("ENAME", "VARCHAR(60)", "NOT NULL"),
            mk_column("GROUP_CODE", "INT", "NOT NULL"),
            mk_column("SUBGROUP_CODE", "INT", ""),
            mk_column("SUBGROUP1_CODE", "INT", ""),
            mk_column("UNIT_CODE", "INT", "NOT NULL"),
            mk_column("UNIT_CODE_2", "INT", ""),
            mk_column("UNIT_CODE_3", "INT", ""),
            mk_column("BRAND_CODE", "INT", ""),
            mk_column("ITEM_DESC", "VARCHAR(100)", ""),
            mk_column("AVAILABLE_QTY", "INT", "DEFAULT 0"),
        ],
        vec![
            mk_fk("UNIT_CODE", "UNITS"),
            mk_fk("UNIT_CODE_2", "UNITS"),
            mk_fk("UNIT_CODE_3", "UNITS"),
            mk_fk("GROUP_CODE", "ITEM_GROUPS"),
            mk_fk("SUBGROUP_CODE", "ITEM_SUBGROUPS"),
            mk_fk("SUBGROUP1_CODE", "ITEM_SUBGROUPS1"),
            mk_fk("BRAND_CODE", "ITEM_BRANDS"),
        ],
    );
    proof {
        assert(items@.columns =~= items_table().columns);
        assert(items@.foreign_keys =~= items_table().foreign_keys);
        assert(items@ == items_table());
    }
    let year_source = mk_table(
        "YEAR_SOURCE",
        "year-source",
        vec![
            mk_column("CODE", "VARCHAR(30)", "PRIMARY KEY"),
            mk_column("ANAME", "VARCHAR(30)", ""),
            mk_column("ENAME", "VARCHAR(30)", "NOT NULL"),
            mk_column("FROM_DATE", "DATE", "NOT NULL"),
            mk_column("TO_DATE", "DATE", "NOT NULL"),
        ],
        Vec::new(),
    );
    proof {
        assert(year_source@.columns =~= year_source_table().columns);
        assert(year_source@.foreign_keys =~= year_source_table().foreign_keys);
        assert(year_source@ == year_source_table());
    }
    let c = vec![brands, groups, subgroups, subgroups1, units, items, year_source];
    proof {
        assert(c.deep_view() =~= catalog_spec());
        lemma_catalog_spec_wf();
    }
    c
}

/// The fixed catalog is well formed: its tables have columns, stems derived
/// from names, unique names, and foreign keys that only reference tables
/// standing earlier.
pub proof fn lemma_catalog_spec_wf()
    ensures
        wf_catalog(catalog_spec()),
{
    let ts = catalog_spec();
    reveal_strlit("ITEM_BRANDS");
    reveal_strlit("item-brands");
    reveal_strlit("ITEM_GROUPS");
    reveal_strlit("item-groups");
    reveal_strlit("ITEM_SUBGROUPS");
    reveal_strlit("item-subgroups");
    reveal_strlit("ITEM_SUBGROUPS1");
    reveal_strlit("item-subgroups1");
    reveal_strlit("UNITS");
    reveal_strlit("units");
    reveal_strlit("ITEMS");
    reveal_strlit("items");
    reveal_strlit("YEAR_SOURCE");
    reveal_strlit("year-source");
    assert forall|i: int| 0 <= i < ts.len() implies wf_table(#[trigger] ts[i]) by {
        assert(ts[0].file_stem =~= file_stem_of(ts[0].name));
        assert(ts[1].file_stem =~= file_stem_of(ts[1].name));
        assert(ts[2].file_stem =~= file_stem_of(ts[2].name));
        assert(ts[3].file_stem =~= file_stem_of(ts[3].name));
        assert(ts[4].file_stem =~= file_stem_of(ts[4].name));
        assert(ts[5].file_stem =~= file_stem_of(ts[5].name));
        assert(ts[6].file_stem =~= file_stem_of(ts[6].name));
    };
    assert forall|i: int, j: int| 0 <= i < j < ts.len() implies ts[i].name != ts[j].name by {
        assert(ts[0].name[5] != ts[1].name[5]);
        assert(ts[0].name[5] != ts[6].name[5]);
        assert(ts[1].name[5] != ts[6].name[5]);
        assert(ts[4].name[0] != ts[5].name[0]);
    };
    assert forall|i: int, k: int|
        0 <= i < ts.len() && 0 <= k < ts[i].foreign_keys.len() implies exists|j: int|
            0 <= j < i && ts[j].name == (#[trigger] ts[i].foreign_keys[k]).table by {
        if i == 2 {
            assert(0 <= 1 < i && ts[1].name == ts[i].foreign_keys[k].table);
        } else if i == 3 {
            assert(0 <= 2 < i && ts[2].name == ts[i].foreign_keys[k].table);
        } else if i == 5 {
            if k <= 2 {
                assert(0 <= 4 < i && ts[4].name == ts[i].foreign_keys[k].table);
            } else if k == 3 {
                assert(0 <= 1 < i && ts[1].name == ts[i].foreign_keys[k].table);
            } else if k == 4 {
                assert(0 <= 2 < i && ts[2].name == ts[i].foreign_keys[k].table);
            } else if k == 5 {
                assert(0 <= 3 < i && ts[3].name == ts[i].foreign_keys[k].table);
            } else {
                assert(0 <= 0 < i && ts[0].name == ts[i].foreign_keys[k].table);
            }
        }
    };
}

// ---------------------------------------------------------------------------
// Create-if-absent planning
// ---------------------------------------------------------------------------

/// The files that a run actually writes: those of `files`, in order, whose
/// name is not among `existing`. A file that already exists is silently left
/// untouched.
pub open spec fn to_write(files: Seq<FileModel>, existing: Seq<Seq<char>>) -> Seq<FileModel>
    decreases files.len(),
{
    if files.len() == 0 {
        Seq::<FileModel>::empty()
    } else if existing.contains(files.last().name) {
        to_write(files.drop_last(), existing)
    } else {
        to_write(files.drop_last(), existing) + seq![files.last()]
    }
}

/// Whether a name occurs among the existing file names.
fn name_exists(existing: &Vec<String>, name: &String) -> (b: bool)
    ensures
        b == existing.deep_view().contains(name@),
{
    let mut i: usize = 0;
    while i < existing.len()
        invariant
            i <= existing.len(),
            forall|k: int| 0 <= k < i ==> existing.deep_view()[k] != name@,
        decreases existing.len() - i,
    {
        if existing[i] == *name {
            proof {
                assert(existing.deep_view()[i as int] == name@);
            }
            return true;
        }
        i += 1;
    }
    false
}

/// Keeps the files whose name is not already present: the create-if-absent
/// write policy.
pub fn files_to_write(files: Vec<ScriptFile>, existing: &Vec<String>) -> (r: Vec<ScriptFile>)
    ensures
        r.deep_view() == to_write(files.deep_view(), existing.deep_view()),
{
    let ghost fm = files.deep_view();
    let mut r: Vec<ScriptFile> = Vec::new();
    let mut i: usize = 0;
    while i < files.len()
        invariant
            i <= files.len(),
            fm == files.deep_view(),
            r.deep_view() == to_write(fm.take(i as int), existing.deep_view()),
        decreases files.len() - i,
    {
        if !name_exists(existing, &files[i].name) {
            r.push(files[i].clone());
        }
        proof {
            assert(fm.take(i + 1).drop_last() =~= fm.take(i as int));
            assert(fm.take(i + 1).last() == fm[i as int]);
            assert(r.deep_view() =~= to_write(fm.take(i + 1), existing.deep_view()));
        }
        i += 1;
    }
    proof {
        assert(fm.take(files.len() as int) =~= fm);
    }
    r
}

/// The names of a set of generated files, in order.
pub open spec fn file_names(files: Seq<FileModel>) -> Seq<Seq<char>> {
    files.map_values(|f: FileModel| f.name)
}

/// Create-if-absent skips every file whose name is already present: when all
/// planned names exist, nothing at all is written.
pub proof fn lemma_to_write_all_present(files: Seq<FileModel>, existing: Seq<Seq<char>>)
    requires
        forall|i: int| 0 <= i < files.len() ==> existing.contains((#[trigger] files[i]).name),
    ensures
        to_write(files, existing).len() == 0,
    decreases files.len(),
{
    if files.len() > 0 {
        assert(existing.contains(files[files.len() - 1].name));
        assert(forall|i: int|
            0 <= i < files.drop_last().len() ==> (#[trigger] files.drop_last()[i])
                == files[i]);
        lemma_to_write_all_present(files.drop_last(), existing);
    }
}

/// Generating the schema scripts twice in a row writes nothing the second
/// time: after a first run every planned file exists — it was either present
/// before or written by that run — so the second run's create-if-absent write
/// set is empty, and no file is overwritten or duplicated.
pub proof fn lemma_second_generation_writes_nothing(files: Seq<FileModel>, before: Seq<Seq<char>>)
    ensures
        to_write(files, before + file_names(files)).len() == 0,
{
    let existing = before + file_names(files);
    assert forall|i: int| 0 <= i < files.len() implies existing.contains(
        (#[trigger] files[i]).name,
    ) by {
        assert(existing[before.len() + i] == files[i].name);
    };
    lemma_to_write_all_present(files, existing);
}

} // verus!
