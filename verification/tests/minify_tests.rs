use minify_js::{minify, Session, TopLevelMode};
use prebuild::minify::{
    compress, script_pass, stylesheet_pass, Asset, CompressStage, CompressStep, ScriptOutcome,
};
use prebuild::mode::Mode;

fn asset(name: &str, content: &str) -> Asset {
    Asset { name: name.to_string(), content: content.to_string() }
}

/// Runs the real script minifier over one source, as the build program
/// would, and records its answer.
fn script_outcome(name: &str, source: &str) -> ScriptOutcome {
    let session = Session::new();
    let mut out: Vec<u8> = Vec::new();
    let minified = match minify(&session, TopLevelMode::Global, source.as_bytes(), &mut out) {
        Ok(()) => Ok(String::from_utf8(out).unwrap()),
        Err(e) => Err(format!("{e}")),
    };
    ScriptOutcome { name: name.to_string(), minified }
}

#[test]
fn development_mode_is_a_no_op() {
    let css = "/* palette */\nbody {\n  color:  red ;\n}\n";
    let js = "let  x  =  1 ;\n";
    let step = compress(vec![asset("style.css", css), asset("app.js", js)], Mode::Development)
        .unwrap();
    match step {
        CompressStep::Done(kept) => {
            assert_eq!(kept.len(), 2);
            assert_eq!(kept[0].name, "style.css");
            assert_eq!(kept[0].content, css);
            assert_eq!(kept[1].name, "app.js");
            assert_eq!(kept[1].content, js);
        },
        CompressStep::NeedsScripts(_) => panic!("development must not minify"),
    }
}

#[test]
fn stylesheet_minification_shrinks_and_still_parses() {
    let input = "/* palette */\nbody {\n  color:  red ;\n}\n";
    let out = stylesheet_pass(vec![asset("style.css", input)]).unwrap();
    assert_eq!(out.len(), 1);
    assert_eq!(out[0].name, "style.css");
    assert!(out[0].content.len() < input.len());
    assert!(!out[0].content.contains("palette"));
    let again = stylesheet_pass(vec![asset("style.css", out[0].content.as_str())]).unwrap();
    assert_eq!(again[0].content, out[0].content);
}

#[test]
fn production_stylesheets_are_handed_on_to_the_script_minifier() {
    let step = compress(vec![asset("style.css", "a { color: red; }")], Mode::Production).unwrap();
    match step {
        CompressStep::NeedsScripts(mid) => {
            assert_eq!(mid.len(), 1);
            assert_eq!(mid[0].name, "style.css");
            assert_eq!(mid[0].content, "a {\n  color: red;\n}\n");
        },
        CompressStep::Done(_) => panic!("production must minify"),
    }
}

#[test]
fn script_minification_reaches_fixed_point() {
    let input = "const main = () => { let my_first_variable = 1; };";
    let once = script_pass(vec![script_outcome("app.js", input)]).unwrap();
    assert_eq!(once[0].content, "const main=()=>{let a=1}");
    let twice = script_pass(vec![script_outcome("app.js", once[0].content.as_str())]).unwrap();
    assert_eq!(twice[0].content, once[0].content);
}

#[test]
fn invalid_stylesheet_aborts_with_file_name() {
    let assets = vec![
        asset("ok.css", "a { color: red; }"),
        asset("bad.css", "this is not a stylesheet {{{"),
    ];
    let e = compress(assets, Mode::Production).unwrap_err();
    assert_eq!(e.file, "bad.css");
    assert!(matches!(e.stage, CompressStage::Stylesheet));
    assert!(e.message().starts_with("failed to minify stylesheet bad.css:"));
}

#[test]
fn rejected_script_aborts_with_file_name() {
    // a minified stylesheet starts with a selector no script parser accepts
    let e = script_pass(vec![script_outcome("style.css", ".x{color:red}")]).unwrap_err();
    assert_eq!(e.file, "style.css");
    assert!(matches!(e.stage, CompressStage::Script));
    assert!(e.message().starts_with("failed to minify script style.css:"));
}

#[test]
fn script_pass_stops_at_the_first_rejection() {
    let outcomes = vec![
        script_outcome("a.js", "let a = 1;"),
        ScriptOutcome {
            name: "b.js".to_string(),
            minified: Err("rejected".to_string()),
        },
        ScriptOutcome {
            name: "c.js".to_string(),
            minified: Err("also rejected".to_string()),
        },
    ];
    let e = script_pass(outcomes).unwrap_err();
    assert_eq!(e.file, "b.js");
    assert_eq!(e.detail, "rejected");
}

#[test]
fn empty_snapshot_succeeds() {
    let step = compress(Vec::new(), Mode::Production).unwrap();
    assert!(matches!(step, CompressStep::NeedsScripts(mid) if mid.is_empty()));
    let out = script_pass(Vec::new()).unwrap();
    assert!(out.is_empty());
}
