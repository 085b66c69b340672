//! The options of one run.
use vstd::prelude::*;

verus! {

/// What a run is asked to do.
///
/// `max_file_size` is accepted but not consulted: diffs are bounded by the
/// fixed ceiling `filter::MAX_FILE_SIZE` alone.
#[derive(Debug)]
pub struct Cli {
    /// The commit range, such as `HEAD~5..HEAD`.
    pub commits: String,
    /// The model that summarizes.
    pub model: String,
    /// Where the finished changelog is posted.
    pub api_endpoint: String,
    /// Where the model endpoint listens.
    pub ollama_endpoint: String,
    /// A size limit in KiB, accepted and not consulted.
    pub max_file_size: u64,
    /// Extra ignore patterns, applied after all others.
    pub ignore: Vec<String>,
}

impl Cli {
    /// The client of the model endpoint that these options name.
    pub fn ollama_client(&self) -> (r: crate::ollama::OllamaClient)
        ensures
            r.url@ == self.ollama_endpoint@,
            r.model@ == self.model@,
    {
        crate::ollama::OllamaClient::new(self.ollama_endpoint.clone(), self.model.clone())
    }
}

} // verus!
