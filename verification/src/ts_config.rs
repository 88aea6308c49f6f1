//! A tree-sitter highlighting configuration together with the highlight
//! names it was configured with. The only way to get one is to configure a
//! configuration, so the names it carries are those tree-sitter was given.
use tree_sitter_highlight::HighlightConfiguration;
use vstd::prelude::*;

verus! {

/// A configuration configured with the highlight names `names`.
pub struct Configured {
    config: HighlightConfiguration,
    names: Vec<&'static str>,
}

impl Configured {
    /// The highlight names the configuration recognizes, a highlight's index
    /// being its position here.
    pub closed spec fn names(&self) -> Seq<Seq<char>> {
        self.names@.map_values(|n: &'static str| n@)
    }

    /// The tree-sitter configuration.
    pub closed spec fn configuration(&self) -> HighlightConfiguration {
        self.config
    }

    /// The tree-sitter configuration.
    pub fn config(&self) -> (res: &HighlightConfiguration)
        ensures
            *res == self.configuration(),
    {
        &self.config
    }
}

/// Tree-sitter's `HighlightConfiguration::configure` on `config` with the
/// highlight names `names`: afterwards the configuration recognizes those
/// names, a highlight's index being its position in `names`. The result
/// holds the configuration and the names it was given.
#[verifier::external_body]
pub(crate) fn configure(config: HighlightConfiguration, names: Vec<&'static str>) -> (res:
    Configured)
    ensures
        res.names() == names@.map_values(|n: &'static str| n@),
{
    let mut config = config;
    config.configure(&names);
    Configured { config, names }
}

} // verus!
