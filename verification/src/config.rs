//! The settings of one run.

use vstd::prelude::*;

verus! {

/// Where a run reads from and writes to, and whether it serves the result.
#[derive(Debug, Clone, PartialEq, Eq)]
pub struct Config {
    /// Directory that holds the markdown sources.
    pub input_dir: String,
    /// Directory that holds the templates.
    pub template_dir: String,
    /// Directory the pages are written to.
    pub out_dir: String,
    /// Name of the template every page is rendered through.
    pub html_template: String,
    /// Whether to serve the output directory once it is built.
    pub serve: bool,
    /// Port the server listens on.
    pub port: String,
}

/// Where the markdown sources are looked for unless told otherwise.
pub const DEFAULT_INPUT_DIR: &'static str = "content";

/// Where the templates are looked for unless told otherwise.
pub const DEFAULT_TEMPLATE_DIR: &'static str = "templates";

/// Where the pages are written unless told otherwise.
pub const DEFAULT_OUT_DIR: &'static str = "public";

/// The template every page is rendered through unless told otherwise.
pub const DEFAULT_TEMPLATE: &'static str = "base.html";

/// The port the server listens on unless told otherwise.
pub const DEFAULT_PORT: &'static str = "8080";

/// The pattern that finds the markdown sources: `<input_dir>/*.md`, files
/// of that one directory only.
pub open spec fn source_pattern_of(input_dir: Seq<char>) -> Seq<char> {
    input_dir + "/*.md"@
}

/// The pattern that finds the templates: `<template_dir>/*.html`.
pub open spec fn template_pattern_of(template_dir: Seq<char>) -> Seq<char> {
    template_dir + "/*.html"@
}

impl Default for Config {
    /// Sources in `content`, templates in `templates`, pages in `public`
    /// through `base.html`, no server, port 8080.
    fn default() -> (config: Config)
        ensures
            config.input_dir@ == "content"@,
            config.template_dir@ == "templates"@,
            config.out_dir@ == "public"@,
            config.html_template@ == "base.html"@,
            !config.serve,
            config.port@ == "8080"@,
    {
        Config {
            input_dir: String::from_str(DEFAULT_INPUT_DIR),
            template_dir: String::from_str(DEFAULT_TEMPLATE_DIR),
            out_dir: String::from_str(DEFAULT_OUT_DIR),
            html_template: String::from_str(DEFAULT_TEMPLATE),
            serve: false,
            port: String::from_str(DEFAULT_PORT),
        }
    }
}

impl Config {
    /// The pattern to list the markdown sources with.
    pub fn source_pattern(&self) -> (pattern: String)
        ensures
            pattern@ == source_pattern_of(self.input_dir@),
    {
        let mut pattern = self.input_dir.clone();
        pattern.append("/*.md");
        pattern
    }

    /// The pattern to load the templates with.
    pub fn template_pattern(&self) -> (pattern: String)
        ensures
            pattern@ == template_pattern_of(self.template_dir@),
    {
        let mut pattern = self.template_dir.clone();
        pattern.append("/*.html");
        pattern
    }
}

} // verus!
