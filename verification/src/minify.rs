//! Minification of stylesheet and script assets.
//!
//! The stylesheet pass runs over every asset first; the script pass then
//! runs over the stylesheet pass's output. The first failure of either pass
//! aborts the whole stage and names the offending file. Both passes are
//! gated on production mode: in development nothing is touched.
//!
//! The stylesheet minifier returns its result and is called here, behind a
//! trusted wrapper. The script minifier, `minify_js`, aborts the process on
//! some inputs it admits — an `export` of an undeclared name, or a top-level
//! `if` whose branch reduces to expressions, both reachable in its `Global`
//! mode — so no contract over a call from verified code would be true of it.
//! The surrounding build program therefore runs that call itself, one asset
//! at a time, and hands the per-file results to [`script_pass`], which is
//! verified for every value of them: it assembles the pass's output, or the
//! error naming the first rejected file.

use vstd::prelude::*;
use vstd::string::StringExecFns;
use crate::mode::Mode;
use lightningcss::stylesheet::{MinifyOptions, ParserOptions, PrinterOptions, StyleSheet};

verus! {

/// Ghost model of one asset: its file name and its text content.
pub struct AssetModel {
    /// The asset's file name.
    pub name: Seq<char>,
    /// The asset's full text.
    pub content: Seq<char>,
}

/// One static asset: a file name and that file's full text content.
#[derive(Debug)]
pub struct Asset {
    /// The asset's file name.
    pub name: String,
    /// The asset's full text.
    pub content: String,
}

impl View for Asset {
    type V = AssetModel;

    open spec fn view(&self) -> AssetModel {
        AssetModel { name: self.name@, content: self.content@ }
    }
}

impl DeepView for Asset {
    type V = AssetModel;

    open spec fn deep_view(&self) -> AssetModel {
        self.view()
    }
}

/// Which minification pass an error came from.
#[derive(Clone, Copy, Debug, PartialEq, Eq, Structural)]
pub enum CompressStage {
    /// The stylesheet pass.
    Stylesheet,
    /// The script pass.
    Script,
}

/// A minification failure: the pass it happened in, the name of the file
/// that was rejected, and the minifier's own description of the problem.
#[derive(Debug)]
pub struct CompressError {
    /// The pass the failure happened in.
    pub stage: CompressStage,
    /// The name of the rejected file.
    pub file: String,
    /// The minifier's description of the problem.
    pub detail: String,
}

/// The word naming a pass inside an error message.
pub open spec fn stage_name(s: CompressStage) -> Seq<char> {
    match s {
        CompressStage::Stylesheet => "stylesheet"@,
        CompressStage::Script => "script"@,
    }
}

impl CompressError {
    /// A descriptive one-line message naming the pass and the file.
    pub fn message(&self) -> (m: String)
        ensures
            m@ == "failed to minify "@ + stage_name(self.stage) + " "@ + self.file@ + ": "@
                + self.detail@,
    {
        let mut m: String = "failed to minify ".to_owned();
        match self.stage {
            CompressStage::Stylesheet => m.append("stylesheet"),
            CompressStage::Script => m.append("script"),
        }
        m.append(" ");
        m.append(self.file.as_str());
        m.append(": ");
        m.append(self.detail.as_str());
        m
    }
}

// ---------------------------------------------------------------------------
// The stylesheet minifier, behind a trusted wrapper
// ---------------------------------------------------------------------------

/// What the stylesheet minifier produces for a given source text: the
/// minified stylesheet when the source is accepted, `None` when it is
/// rejected. The result is a function of the source text alone.
pub uninterp spec fn css_minify_result(source: Seq<char>) -> Option<Seq<char>>;

/// Relies on `lightningcss`: `StyleSheet::parse`, `StyleSheet::minify` and
/// `StyleSheet::to_css`, each with its default options. The chain either
/// rejects the source — a parse, minify or print error, described in the
/// `Err` text — or prints the minified stylesheet; which of the two happens,
/// and the printed text, depend on the source alone.
#[verifier::external_body]
fn minify_stylesheet(source: &str) -> (r: Result<String, String>)
    ensures
        r is Ok <==> css_minify_result(source@) is Some,
        r is Ok ==> r->Ok_0@ == css_minify_result(source@)->0,
{
    let mut sheet = match StyleSheet::parse(source, ParserOptions::default()) {
        Ok(s) => s,
        Err(e) => return Err(format!("{e}")),
    };
    if let Err(e) = sheet.minify(MinifyOptions::default()) {
        return Err(format!("{e}"));
    }
    match sheet.to_css(PrinterOptions::default()) {
        Ok(out) => Ok(out.code),
        Err(e) => Err(format!("{e}")),
    }
}

// ---------------------------------------------------------------------------
// The stylesheet pass
// ---------------------------------------------------------------------------

/// Whether the stylesheet minifier accepts an asset.
pub open spec fn css_ok(a: AssetModel) -> bool {
    css_minify_result(a.content) is Some
}

/// An asset after the stylesheet pass: same name, minified content.
pub open spec fn css_minified(a: AssetModel) -> AssetModel {
    AssetModel { name: a.name, content: css_minify_result(a.content)->0 }
}

/// Whether the stylesheet pass accepts every asset.
pub open spec fn css_pass_ok(v: Seq<AssetModel>) -> bool {
    forall|i: int| 0 <= i < v.len() ==> css_ok(#[trigger] v[i])
}

/// The stylesheet pass's output.
pub open spec fn css_pass_out(v: Seq<AssetModel>) -> Seq<AssetModel> {
    v.map_values(|a: AssetModel| css_minified(a))
}

/// Asset `i` is the first one the stylesheet pass rejects.
pub open spec fn first_css_fail(v: Seq<AssetModel>, i: int) -> bool {
    &&& 0 <= i < v.len()
    &&& !css_ok(v[i])
    &&& forall|k: int| 0 <= k < i ==> css_ok(#[trigger] v[k])
}

/// The stylesheet pass: minifies every asset, in order, as a stylesheet.
/// The first asset the stylesheet minifier rejects aborts the pass with an
/// error naming that asset's file.
pub fn stylesheet_pass(assets: Vec<Asset>) -> (r: Result<Vec<Asset>, CompressError>)
    ensures
        r is Ok <==> css_pass_ok(assets.deep_view()),
        r is Ok ==> r->Ok_0.deep_view() == css_pass_out(assets.deep_view()),
        r is Err ==> r->Err_0.stage == CompressStage::Stylesheet && (forall|i: int|
            first_css_fail(assets.deep_view(), i) ==> r->Err_0.file@ == assets.deep_view()[i].name),
{
    let ghost v = assets.deep_view();
    let mut styled: Vec<Asset> = Vec::new();
    let mut i: usize = 0;
    while i < assets.len()
        invariant
            i <= assets.len(),
            v == assets.deep_view(),
            forall|k: int| 0 <= k < i ==> css_ok(#[trigger] v[k]),
            styled.deep_view() == css_pass_out(v).take(i as int),
        decreases assets.len() - i,
    {
        let a = &assets[i];
        match minify_stylesheet(a.content.as_str()) {
            Result::Ok(content) => {
                let ghost prev = styled.deep_view();
                styled.push(Asset { name: a.name.clone(), content });
                proof {
                    assert(styled.deep_view() =~= prev.push(css_minified(v[i as int])));
                    assert(css_pass_out(v).take(i + 1) =~= css_pass_out(v).take(i as int).push(
                        css_pass_out(v)[i as int],
                    ));
                }
            },
            Result::Err(detail) => {
                proof {
                    assert(first_css_fail(v, i as int));
                    assert forall|j: int| first_css_fail(v, j) implies j == i as int by {
                        if j < i as int {
                            assert(css_ok(v[j]));
                        } else if j > i as int {
                            assert(css_ok(v[i as int]));
                        }
                    };
                }
                return Result::Err(
                    CompressError {
                        stage: CompressStage::Stylesheet,
                        file: a.name.clone(),
                        detail,
                    },
                );
            },
        }
        i += 1;
    }
    proof {
        assert(css_pass_out(v).take(assets.len() as int) =~= css_pass_out(v));
    }
    Result::Ok(styled)
}

// ---------------------------------------------------------------------------
// The script pass
// ---------------------------------------------------------------------------

/// Ghost model of one script minification outcome.
pub struct ScriptOutcomeModel {
    /// The asset's file name.
    pub name: Seq<char>,
    /// The minifier's answer: the minified text, or its description of why
    /// the source was rejected.
    pub minified: Result<Seq<char>, Seq<char>>,
}

/// One asset's script minification outcome, as the surrounding build
/// program got it from the script minifier: the asset's file name, and
/// either the minified text or the minifier's description of why the source
/// was rejected.
#[derive(Debug)]
pub struct ScriptOutcome {
    /// The asset's file name.
    pub name: String,
    /// The minifier's answer for the asset's content.
    pub minified: Result<String, String>,
}

impl View for ScriptOutcome {
    type V = ScriptOutcomeModel;

    open spec fn view(&self) -> ScriptOutcomeModel {
        ScriptOutcomeModel {
            name: self.name@,
            minified: match self.minified {
                Result::Ok(s) => Result::Ok(s@),
                Result::Err(e) => Result::Err(e@),
            },
        }
    }
}

impl DeepView for ScriptOutcome {
    type V = ScriptOutcomeModel;

    open spec fn deep_view(&self) -> ScriptOutcomeModel {
        self.view()
    }
}

/// Whether the script minifier accepted an asset.
pub open spec fn script_ok(o: ScriptOutcomeModel) -> bool {
    o.minified is Ok
}

/// An accepted asset after the script pass: same name, minified content.
pub open spec fn script_minified(o: ScriptOutcomeModel) -> AssetModel {
    AssetModel { name: o.name, content: o.minified->Ok_0 }
}

/// Whether the script minifier accepted every asset.
pub open spec fn script_pass_ok(v: Seq<ScriptOutcomeModel>) -> bool {
    forall|i: int| 0 <= i < v.len() ==> script_ok(#[trigger] v[i])
}

/// The script pass's output.
pub open spec fn script_pass_out(v: Seq<ScriptOutcomeModel>) -> Seq<AssetModel> {
    v.map_values(|o: ScriptOutcomeModel| script_minified(o))
}

/// Outcome `i` is the first one the script minifier rejected.
pub open spec fn first_script_fail(v: Seq<ScriptOutcomeModel>, i: int) -> bool {
    &&& 0 <= i < v.len()
    &&& !script_ok(v[i])
    &&& forall|k: int| 0 <= k < i ==> script_ok(#[trigger] v[k])
}

/// The script pass, over the per-file answers of the script minifier.
///
/// The surrounding build program runs `minify_js::minify` over each asset of
/// the stylesheet pass's output, in order — shielding itself against the
/// aborts described in the module documentation — and hands the outcomes
/// here. Whatever those answers are, this pass returns the minified assets
/// when every one was accepted, and otherwise the error naming the first
/// rejected file, with the minifier's own description.
pub fn script_pass(outcomes: Vec<ScriptOutcome>) -> (r: Result<Vec<Asset>, CompressError>)
    ensures
        r is Ok <==> script_pass_ok(outcomes.deep_view()),
        r is Ok ==> r->Ok_0.deep_view() == script_pass_out(outcomes.deep_view()),
        r is Err ==> r->Err_0.stage == CompressStage::Script && (forall|i: int|
            first_script_fail(outcomes.deep_view(), i) ==> r->Err_0.file@
                == outcomes.deep_view()[i].name && r->Err_0.detail@
                == outcomes.deep_view()[i].minified->Err_0),
{
    let ghost w = outcomes.deep_view();
    let mut out: Vec<Asset> = Vec::new();
    let mut i: usize = 0;
    while i < outcomes.len()
        invariant
            i <= outcomes.len(),
            w == outcomes.deep_view(),
            forall|k: int| 0 <= k < i ==> script_ok(#[trigger] w[k]),
            out.deep_view() == script_pass_out(w).take(i as int),
        decreases outcomes.len() - i,
    {
        let o = &outcomes[i];
        match &o.minified {
            Result::Ok(content) => {
                let ghost prev = out.deep_view();
                out.push(Asset { name: o.name.clone(), content: content.clone() });
                proof {
                    assert(out.deep_view() =~= prev.push(script_minified(w[i as int])));
                    assert(script_pass_out(w).take(i + 1) =~= script_pass_out(w).take(
                        i as int,
                    ).push(script_pass_out(w)[i as int]));
                }
            },
            Result::Err(detail) => {
                proof {
                    assert(first_script_fail(w, i as int));
                    assert forall|j: int| first_script_fail(w, j) implies j == i as int by {
                        if j < i as int {
                            assert(script_ok(w[j]));
                        } else if j > i as int {
                            assert(script_ok(w[i as int]));
                        }
                    };
                }
                return Result::Err(
                    CompressError {
                        stage: CompressStage::Script,
                        file: o.name.clone(),
                        detail: detail.clone(),
                    },
                );
            },
        }
        i += 1;
    }
    proof {
        assert(script_pass_out(w).take(outcomes.len() as int) =~= script_pass_out(w));
    }
    Result::Ok(out)
}

// ---------------------------------------------------------------------------
// The whole stage
// ---------------------------------------------------------------------------

/// What the minification stage asks the build to do next.
#[derive(Debug)]
pub enum CompressStep {
    /// Nothing is to be minified: the assets stay exactly as they are. This
    /// is the answer in every mode but production.
    Done(Vec<Asset>),
    /// The stylesheet pass succeeded. The build program is to run the script
    /// minifier over each of these assets, in order, and hand the outcomes
    /// to [`script_pass`].
    NeedsScripts(Vec<Asset>),
}

/// The minification stage of one build, up to the point where the script
/// minifier must be consulted.
///
/// In any mode but production the stage is a full no-op: the assets come
/// back unchanged, as [`CompressStep::Done`]. In production mode the
/// stylesheet pass minifies every asset in order; its first rejection aborts
/// the stage with an error naming that asset's file, and on success the
/// result is [`CompressStep::NeedsScripts`] with the pass's output, over
/// which the build program runs the script minifier before finishing with
/// [`script_pass`].
pub fn compress(assets: Vec<Asset>, mode: Mode) -> (r: Result<CompressStep, CompressError>)
    ensures
        mode != Mode::Production ==> (r matches Result::Ok(CompressStep::Done(kept))
            && kept.deep_view() == assets.deep_view()),
        mode == Mode::Production ==> (r is Ok <==> css_pass_ok(assets.deep_view())),
        mode == Mode::Production && r is Ok ==> (r->Ok_0 matches CompressStep::NeedsScripts(mid)
            && mid.deep_view() == css_pass_out(assets.deep_view())),
        r is Err ==> mode == Mode::Production && r->Err_0.stage == CompressStage::Stylesheet
            && !css_pass_ok(assets.deep_view()) && (forall|i: int|
            first_css_fail(assets.deep_view(), i) ==> r->Err_0.file@ == assets.deep_view()[i].name),
{
    if mode != Mode::Production {
        return Result::Ok(CompressStep::Done(assets));
    }
    match stylesheet_pass(assets) {
        Result::Ok(mid) => Result::Ok(CompressStep::NeedsScripts(mid)),
        Result::Err(e) => Result::Err(e),
    }
}

} // verus!
