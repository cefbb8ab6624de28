//! Options of the form derive: what the derive is asked to generate, and the
//! settings of koruma validation.

use vstd::prelude::*;

verus! {

/// What the form derive generates besides the form itself.
#[derive(Clone, Copy, Debug, PartialEq, Eq)]
pub struct GpuiFormOptions {
    /// Whether a static shape description of the form is emitted too.
    pub generate_shape: bool,
}

/// Settings of koruma validation on a form.
#[derive(Clone, Copy, Debug, PartialEq, Eq)]
pub struct KorumaOptions {
    /// Whether validation messages are localized through fluent.
    pub fluent: bool,
}

impl Default for KorumaOptions {
    /// No fluent localization.
    fn default() -> (r: Self)
        ensures
            !r.fluent,
    {
        KorumaOptions { fluent: false }
    }
}

/// The `koruma` attribute of a form: a bare word or a list of options.
#[derive(Clone, Copy, Debug, PartialEq, Eq)]
pub struct KorumaField(pub KorumaOptions);

impl KorumaField {
    /// The attribute written as a bare `koruma`: every option at its default.
    pub fn from_word() -> (r: Self)
        ensures
            !r.0.fluent,
    {
        KorumaField(KorumaOptions::default())
    }

    /// The attribute written with options.
    pub fn from_options(options: KorumaOptions) -> (r: Self)
        ensures
            r.0 == options,
    {
        KorumaField(options)
    }
}

} // verus!
