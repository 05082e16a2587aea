//! The filter configuration handed to the control-channel task.

use vstd::prelude::*;

verus! {

/// Mathematical content of a [`FilterConfig`]: the two lists of patterns, each
/// pattern a sequence of characters, in the order in which they were given.
pub struct FilterConfigView {
    pub allowlist: Seq<Seq<char>>,
    pub denylist: Seq<Seq<char>>,
}

/// Patterns that the injected payload lets through and patterns that it blocks.
///
/// A configuration is resolved once per hook attempt and never changed
/// afterwards: there is no mutating method.
#[derive(Debug, PartialEq, Eq)]
pub struct FilterConfig {
    allowlist: Vec<String>,
    denylist: Vec<String>,
}

impl View for FilterConfig {
    type V = FilterConfigView;

    closed spec fn view(&self) -> FilterConfigView {
        FilterConfigView {
            allowlist: self.allowlist.deep_view(),
            denylist: self.denylist.deep_view(),
        }
    }
}

/// Copies a list of patterns.
fn clone_patterns(patterns: &Vec<String>) -> (copy: Vec<String>)
    ensures
        copy.deep_view() == patterns.deep_view(),
{
    let copy = patterns.clone();
    assert(copy.deep_view() =~= patterns.deep_view()) by {
        assert forall|i: int| 0 <= i < patterns.len() implies copy[i].deep_view()
            == patterns[i].deep_view() by {
            assert(cloned::<String>(patterns[i], copy[i]));
        }
    }
    copy
}

impl Clone for FilterConfig {
    /// A configuration with the same two lists.
    fn clone(&self) -> (copy: FilterConfig)
        ensures
            copy@ == self@,
    {
        FilterConfig {
            allowlist: clone_patterns(&self.allowlist),
            denylist: clone_patterns(&self.denylist),
        }
    }
}

impl FilterConfig {
    /// Builds a configuration from its two lists.
    pub fn new(allowlist: Vec<String>, denylist: Vec<String>) -> (config: FilterConfig)
        ensures
            config@.allowlist == allowlist.deep_view(),
            config@.denylist == denylist.deep_view(),
    {
        FilterConfig { allowlist, denylist }
    }

    /// The patterns that are let through.
    pub fn allowlist(&self) -> (list: &Vec<String>)
        ensures
            list.deep_view() == self@.allowlist,
    {
        &self.allowlist
    }

    /// The patterns that are blocked.
    pub fn denylist(&self) -> (list: &Vec<String>)
        ensures
            list.deep_view() == self@.denylist,
    {
        &self.denylist
    }

    /// Takes the configuration apart into its allowlist and its denylist.
    pub fn into_parts(self) -> (parts: (Vec<String>, Vec<String>))
        ensures
            parts.0.deep_view() == self@.allowlist,
            parts.1.deep_view() == self@.denylist,
    {
        (self.allowlist, self.denylist)
    }
}

} // verus!
