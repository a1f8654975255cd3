//! The run configuration's shape and its validation. Reading and
//! deserializing the configuration file is the embedding's job; the values
//! and the output-mode rule live here.

use vstd::prelude::*;

verus! {

/// Connection settings and worker count of the database sink.
#[derive(Clone, Debug)]
pub struct DatabaseConfig {
    pub uri: String,
    pub keyspace: String,
    pub workers: usize,
}

/// Run options: which sink to use, the fetch retry budget, and how many
/// fetch workers to run.
#[derive(Clone, Debug)]
pub struct OptionsConfig {
    pub output: String,
    pub max_retries: usize,
    pub fetchers: usize,
}

/// The rectangular coordinate range to crawl, its scan direction, and the
/// zoom level shared by every tile of the run.
#[derive(Clone, Copy, PartialEq, Eq, Structural, Debug)]
pub struct TileGenerationConfig {
    pub min_x: usize,
    pub max_x: usize,
    pub min_y: usize,
    pub max_y: usize,
    pub reverse: bool,
    pub zoom: usize,
}

/// The whole run configuration.
#[derive(Clone, Debug)]
pub struct Config {
    pub database: DatabaseConfig,
    pub options: OptionsConfig,
    pub tile_generation: TileGenerationConfig,
}

/// The two sinks a run can write to.
#[derive(Clone, Copy, PartialEq, Eq, Structural, Debug)]
pub enum OutputMode {
    Database,
    File,
}

/// Character-for-character equality of two texts.
pub fn str_eq(a: &str, b: &str) -> (r: bool)
    ensures
        r == (a@ == b@),
{
    let la = a.unicode_len();
    let lb = b.unicode_len();
    if la != lb {
        return false;
    }
    let mut i: usize = 0;
    while i < la
        invariant
            la == a@.len(),
            la == b@.len(),
            i <= la,
            forall|k: int| 0 <= k < i ==> a@[k] == b@[k],
        decreases la - i,
    {
        if a.get_char(i) != b.get_char(i) {
            return false;
        }
        i = i + 1;
    }
    proof {
        assert(a@ =~= b@);
    }
    true
}

/// Which sink an output setting selects: exactly "database" or "file";
/// any other value is invalid and must abort startup.
pub open spec fn output_mode_spec(s: Seq<char>) -> Option<OutputMode> {
    if s == "database"@ {
        Some(OutputMode::Database)
    } else if s == "file"@ {
        Some(OutputMode::File)
    } else {
        None
    }
}

/// Parse the configured output setting.
pub fn parse_output_mode(s: &str) -> (r: Option<OutputMode>)
    ensures
        r == output_mode_spec(s@),
{
    if str_eq(s, "database") {
        Some(OutputMode::Database)
    } else if str_eq(s, "file") {
        Some(OutputMode::File)
    } else {
        None
    }
}

} // verus!
