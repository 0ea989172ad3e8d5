//! The small configuration that outlives a run: credential and theme.

use vstd::prelude::*;

verus! {

/// The configuration as plain values.
pub struct ConfigView {
    pub dark_mode: bool,
    pub api_key: Seq<char>,
}

impl ConfigView {
    /// The same configuration with the theme flipped.
    pub open spec fn toggled(self) -> ConfigView {
        ConfigView { dark_mode: !self.dark_mode, api_key: self.api_key }
    }

    /// Whether a credential is known.
    pub open spec fn has_key(self) -> bool {
        self.api_key.len() > 0
    }
}

#[derive(Debug)]
pub struct HeadlinesConfig {
    pub dark_mode: bool,
    pub api_key: String,
}

impl View for HeadlinesConfig {
    type V = ConfigView;

    open spec fn view(&self) -> ConfigView {
        ConfigView { dark_mode: self.dark_mode, api_key: self.api_key@ }
    }
}

impl Default for HeadlinesConfig {
    /// Light theme and no credential.
    fn default() -> (config: Self)
        ensures
            config@ == (ConfigView { dark_mode: false, api_key: Seq::empty() }),
    {
        HeadlinesConfig { dark_mode: false, api_key: String::new() }
    }
}

impl Clone for HeadlinesConfig {
    fn clone(&self) -> (copy: Self)
        ensures
            copy@ == self@,
    {
        HeadlinesConfig { dark_mode: self.dark_mode, api_key: self.api_key.clone() }
    }
}

impl HeadlinesConfig {
    pub fn new(dark_mode: bool, api_key: String) -> (config: Self)
        ensures
            config@ == (ConfigView { dark_mode, api_key: api_key@ }),
    {
        HeadlinesConfig { dark_mode, api_key }
    }

    /// Whether a non-empty credential is held.
    pub fn has_key(&self) -> (known: bool)
        ensures
            known == self@.has_key(),
    {
        !self.api_key.as_str().is_empty()
    }

    /// Flips the theme and touches nothing else.
    pub fn toggle_theme(&mut self)
        ensures
            final(self)@ == old(self)@.toggled(),
    {
        self.dark_mode = !self.dark_mode;
    }
}

} // verus!
