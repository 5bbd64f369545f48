//! The pipeline orchestrator: resolve the mode once, generate the schema
//! scripts, then minify the assets, in that fixed order, short-circuiting on
//! the first failure and returning it unchanged.
//!
//! The orchestrator is pure: it takes the environment value and one snapshot
//! of the asset directory, and returns everything the build should write.
//! File-system failures belong to the surrounding build program, which
//! performs the writes and aborts the build on the first error.
//!
//! In production mode the schema stage fails loudly — no production schema
//! strategy is defined — and, per the fixed stage order, minification is
//! never reached; the asset minifier itself stays available through
//! [`crate::minify::compress`].

use vstd::prelude::*;
use crate::minify::{compress, Asset, CompressError, CompressStep};
use crate::mode::{opt_view, resolve, resolve_spec, Mode};
use crate::schema::{
    catalog, catalog_spec, generate_database_tables, schema_files, ScriptFile, SchemaError,
};

verus! {

/// Everything a successful run tells the build to write: the schema script
/// files — still subject to the create-if-absent policy — and the assets
/// with their contents.
#[derive(Debug)]
pub struct PipelineOutcome {
    /// The planned schema script files.
    pub scripts: Vec<ScriptFile>,
    /// The assets, byte-identical to the snapshot outside production mode.
    pub assets: Vec<Asset>,
}

/// A pipeline failure: the first stage that failed, with its own error.
#[derive(Debug)]
pub enum PipelineError {
    /// The schema generation stage failed.
    Schema(SchemaError),
    /// The minification stage failed.
    Compress(CompressError),
}

impl PipelineError {
    /// A descriptive one-line message for the failed stage.
    pub fn message(&self) -> (m: String)
        ensures
            self matches PipelineError::Schema(e) ==> m@
                == "production schema generation is not implemented"@,
            self matches PipelineError::Compress(e) ==> m@ == "failed to minify "@
                + crate::minify::stage_name(e.stage) + " "@ + e.file@ + ": "@ + e.detail@,
    {
        match self {
            PipelineError::Schema(e) => e.message(),
            PipelineError::Compress(e) => e.message(),
        }
    }
}

/// Runs the whole pipeline for one build: schema script generation for the
/// fixed catalog, then asset minification, in that order, with the mode
/// resolved once from the environment value.
///
/// Outside production mode the run cannot fail, the assets come back
/// byte-identical, and the scripts are the full development plan. In
/// production mode the schema stage fails loudly — its strategy is an
/// intentional, documented gap — so the run aborts with that error before
/// the minifier is reached, nothing is returned, and the build writes
/// nothing.
pub fn run(env: &Option<String>, assets: Vec<Asset>) -> (r: Result<PipelineOutcome, PipelineError>)
    ensures
        ({
            let m = resolve_spec(opt_view(*env));
            let v = assets.deep_view();
            &&& r is Err <==> m == Mode::Production
            &&& r is Err ==> (r->Err_0 matches PipelineError::Schema(
                SchemaError::ProductionUnimplemented,
            ))
            &&& r is Ok ==> r->Ok_0.scripts.deep_view() == schema_files(catalog_spec())
            &&& r is Ok ==> r->Ok_0.assets.deep_view() == v
        }),
{
    let mode = resolve(env);
    let tables = catalog();
    let scripts = match generate_database_tables(&tables, mode) {
        Result::Ok(scripts) => scripts,
        Result::Err(e) => {
            return Result::Err(PipelineError::Schema(e));
        },
    };
    // From here on the mode is not production: the schema stage fails
    // loudly there, so the minification stage is a no-op by its contract.
    match compress(assets, mode) {
        Result::Ok(CompressStep::Done(kept)) => Result::Ok(
            PipelineOutcome { scripts, assets: kept },
        ),
        Result::Ok(CompressStep::NeedsScripts(mid)) => {
            // unreachable: the script pass is only requested in production
            proof {
                assert(false);
            }
            Result::Ok(PipelineOutcome { scripts, assets: mid })
        },
        Result::Err(e) => {
            // unreachable: minification only fails in production
            proof {
                assert(false);
            }
            Result::Err(PipelineError::Compress(e))
        },
    }
}

} // verus!
