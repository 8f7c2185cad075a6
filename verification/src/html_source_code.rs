//! An HTML fragment built from a template string by substituting
//! placeholder markers.
//!
//! Substitution is single-pass literal replacement: a marker is a plain
//! substring, values are inserted verbatim (no escaping, no validation),
//! and a fully rendered fragment may itself become the replacement for a
//! marker of an enclosing template.

use vstd::prelude::*;

use crate::text::replace_str;
use crate::text::spec_replace;

verus! {

/// An owned HTML string under construction.  The view is its character
/// sequence.
#[derive(Debug)]
pub struct HtmlSourceCode {
    html: String,
}

impl View for HtmlSourceCode {
    type V = Seq<char>;

    closed spec fn view(&self) -> Seq<char> {
        self.html@
    }
}

impl HtmlSourceCode {
    /// Starts from a template string, markers and all.
    pub fn new(template: &str) -> (r: HtmlSourceCode)
        ensures
            r@ == template@,
    {
        HtmlSourceCode { html: String::from_str(template) }
    }

    /// Replaces every occurrence of `marker` with `value`, in place.
    /// Meant for markers that stand inside an attribute value; the
    /// replacement is verbatim.
    pub fn replace_attribute_value(&mut self, marker: &str, value: &str)
        ensures
            final(self)@ == spec_replace(old(self)@, marker@, value@),
    {
        self.html = replace_str(self.html.as_str(), marker, value);
    }

    /// Replaces every occurrence of `marker` with `value`, in place.
    /// Meant for markers that stand in a text node; the replacement is the
    /// same verbatim substitution.
    pub fn replace_text_node(&mut self, marker: &str, value: &str)
        ensures
            final(self)@ == spec_replace(old(self)@, marker@, value@),
    {
        self.html = replace_str(self.html.as_str(), marker, value);
    }

    /// Replaces every occurrence of `marker` with the current rendering of
    /// `nested`, composing fragments.
    pub fn replace_html_source_code(&mut self, marker: &str, nested: &HtmlSourceCode)
        ensures
            final(self)@ == spec_replace(old(self)@, marker@, nested@),
    {
        self.html = replace_str(self.html.as_str(), marker, nested.html.as_str());
    }

    /// The current HTML string.
    pub fn get_html(&self) -> (r: String)
        ensures
            r@ == self@,
    {
        self.html.clone()
    }
}

} // verus!
