use prebuild::mode::Mode;
use prebuild::schema::{
    catalog, create_table_statement, drop_tables_script, files_to_write, generate_database_tables,
    generate_table_script, SchemaError,
};

#[test]
fn catalog_has_seven_tables_in_dependency_order() {
    let tables = catalog();
    let names: Vec<&str> = tables.iter().map(|t| t.name.as_str()).collect();
    assert_eq!(
        names,
        vec![
            "ITEM_BRANDS",
            "ITEM_GROUPS",
            "ITEM_SUBGROUPS",
            "ITEM_SUBGROUPS1",
            "UNITS",
            "ITEMS",
            "YEAR_SOURCE",
        ]
    );
}

#[test]
fn drop_script_exact_text() {
    let script = drop_tables_script(&catalog());
    assert_eq!(
        script,
        "DROP TABLE IF EXISTS ITEM_BRANDS; DROP TABLE IF EXISTS ITEM_GROUPS; \
         DROP TABLE IF EXISTS ITEM_SUBGROUPS; DROP TABLE IF EXISTS ITEM_SUBGROUPS1; \
         DROP TABLE IF EXISTS UNITS; DROP TABLE IF EXISTS ITEMS; \
         DROP TABLE IF EXISTS YEAR_SOURCE; "
    );
}

#[test]
fn drop_script_has_one_clause_per_table() {
    let tables = catalog();
    let script = drop_tables_script(&tables);
    assert_eq!(script.matches("DROP TABLE IF EXISTS").count(), tables.len());
    for t in &tables {
        let clause = format!("DROP TABLE IF EXISTS {}; ", t.name);
        assert_eq!(script.matches(clause.as_str()).count(), 1);
    }
}

#[test]
fn brands_create_statement_exact() {
    let tables = catalog();
    let statement = create_table_statement(&tables[0]);
    assert_eq!(
        statement,
        "CREATE TABLE ITEM_BRANDS(CODE INT PRIMARY KEY AUTO_INCREMENT, \
         ANAME VARCHAR(60), ENAME VARCHAR(60) NOT NULL)"
    );
}

#[test]
fn subgroups_statement_includes_foreign_key() {
    let tables = catalog();
    let statement = create_table_statement(&tables[2]);
    assert_eq!(
        statement,
        "CREATE TABLE ITEM_SUBGROUPS(CODE INT PRIMARY KEY AUTO_INCREMENT, \
         ANAME VARCHAR(60) NOT NULL, ENAME VARCHAR(60), GROUP_CODE INT NOT NULL, \
         FOREIGN KEY(GROUP_CODE) REFERENCES ITEM_GROUPS(CODE))"
    );
}

#[test]
fn year_source_statement_exact() {
    let tables = catalog();
    let statement = create_table_statement(&tables[6]);
    assert_eq!(
        statement,
        "CREATE TABLE YEAR_SOURCE(CODE VARCHAR(30) PRIMARY KEY, ANAME VARCHAR(30), \
         ENAME VARCHAR(30) NOT NULL, FROM_DATE DATE NOT NULL, TO_DATE DATE NOT NULL)"
    );
}

#[test]
fn items_statement_references_every_dimension() {
    let tables = catalog();
    let statement = create_table_statement(&tables[5]);
    assert_eq!(statement.matches("FOREIGN KEY").count(), 7);
    assert!(statement.contains("FOREIGN KEY(UNIT_CODE) REFERENCES UNITS(CODE)"));
    assert!(statement.contains("FOREIGN KEY(BRAND_CODE) REFERENCES ITEM_BRANDS(CODE)"));
}

#[test]
fn generate_table_script_names_file_from_table() {
    let tables = catalog();
    let file = generate_table_script(&tables[0]);
    assert_eq!(file.name, "item-brands.sql");
    assert_eq!(file.content, create_table_statement(&tables[0]));
}

#[test]
fn development_generation_emits_drop_file_and_seven_tables() {
    let files = generate_database_tables(&catalog(), Mode::Development).unwrap();
    assert_eq!(files.len(), 8);
    assert_eq!(files[0].name, "drop-tables.sql");
    let names: Vec<&str> = files.iter().map(|f| f.name.as_str()).collect();
    assert_eq!(
        names,
        vec![
            "drop-tables.sql",
            "item-brands.sql",
            "item-groups.sql",
            "item-subgroups.sql",
            "item-subgroups1.sql",
            "units.sql",
            "items.sql",
            "year-source.sql",
        ]
    );
    for f in &files {
        assert!(!f.content.is_empty());
    }
}

#[test]
fn production_generation_fails_loudly() {
    let e = generate_database_tables(&catalog(), Mode::Production).unwrap_err();
    assert_eq!(e, SchemaError::ProductionUnimplemented);
    assert_eq!(e.message(), "production schema generation is not implemented");
}

#[test]
fn second_generation_writes_no_files() {
    let tables = catalog();
    let first = generate_database_tables(&tables, Mode::Development).unwrap();
    let no_existing: Vec<String> = Vec::new();
    let first_writes = files_to_write(first.clone(), &no_existing);
    assert_eq!(first_writes.len(), 8);

    let after_first: Vec<String> = first_writes.iter().map(|f| f.name.clone()).collect();
    let second = generate_database_tables(&tables, Mode::Development).unwrap();
    for (a, b) in first.iter().zip(second.iter()) {
        assert_eq!(a.name, b.name);
        assert_eq!(a.content, b.content);
    }
    let second_writes = files_to_write(second, &after_first);
    assert!(second_writes.is_empty());
}

#[test]
fn existing_file_is_left_untouched() {
    let files = generate_database_tables(&catalog(), Mode::Development).unwrap();
    let existing = vec!["items.sql".to_string()];
    let writes = files_to_write(files, &existing);
    assert_eq!(writes.len(), 7);
    assert!(writes.iter().all(|f| f.name != "items.sql"));
}
