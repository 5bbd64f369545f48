use prebuild::minify::Asset;
use prebuild::pipeline::{run, PipelineError};
use prebuild::schema::SchemaError;

fn asset(name: &str, content: &str) -> Asset {
    Asset { name: name.to_string(), content: content.to_string() }
}

#[test]
fn development_run_keeps_assets_and_plans_schema() {
    let css = "body {  color : red ; }\n";
    let js = "let  x  =  1 ;\n";
    let assets = vec![asset("style.css", css), asset("app.js", js)];
    let outcome = run(&None, assets).unwrap();

    assert_eq!(outcome.assets.len(), 2);
    assert_eq!(outcome.assets[0].content, css);
    assert_eq!(outcome.assets[1].content, js);

    assert_eq!(outcome.scripts.len(), 8);
    assert_eq!(outcome.scripts[0].name, "drop-tables.sql");
    assert!(outcome.scripts.iter().any(|f| f.name == "items.sql"));
    for f in &outcome.scripts {
        assert!(!f.content.is_empty());
    }
}

#[test]
fn production_run_fails_loudly_at_the_schema_stage() {
    let assets = vec![asset("style.css", "body { color: red; }")];
    let e = run(&Some("prod".to_string()), assets).unwrap_err();
    assert!(matches!(e, PipelineError::Schema(SchemaError::ProductionUnimplemented)));
    assert_eq!(e.message(), "production schema generation is not implemented");
}

#[test]
fn production_run_fails_loudly_for_any_casing() {
    let e = run(&Some("PROD".to_string()), vec![]).unwrap_err();
    assert!(matches!(e, PipelineError::Schema(SchemaError::ProductionUnimplemented)));
}

#[test]
fn unrecognized_value_behaves_like_development() {
    let css = "body {  color : red ; }\n";
    let outcome = run(&Some("staging".to_string()), vec![asset("style.css", css)]).unwrap();
    assert_eq!(outcome.assets[0].content, css);
    assert_eq!(outcome.scripts.len(), 8);
}
