//! Router configuration.

use vstd::prelude::*;

verus! {

/// How a router is configured.
pub struct Config {
    pub(crate) export_bindings_on_build: Option<String>,
}

impl Config {
    /// A configuration that exports no bindings.
    pub fn new() -> (r: Self)
        ensures
            r.export_path() is None,
    {
        Config { export_bindings_on_build: None }
    }

    /// Where the TypeScript bindings of the router are exported each time it is built, if anywhere.
    pub closed spec fn export_path(&self) -> Option<Seq<char>> {
        match self.export_bindings_on_build {
            Some(p) => Some(p@),
            None => None,
        }
    }

    /// Exports the bindings of the router to `export_path` every time the router is built.
    /// The bindings are only exported in debug builds.
    pub fn export_ts_bindings(self, export_path: String) -> (r: Self)
        ensures
            r.export_path() == Some(export_path@),
    {
        Config { export_bindings_on_build: Some(export_path) }
    }

    /// The path the bindings are exported to, if any.
    pub fn export_bindings_on_build(&self) -> (r: Option<&String>)
        ensures
            match r {
                Some(p) => self.export_path() == Some(p@),
                None => self.export_path() is None,
            },
    {
        match &self.export_bindings_on_build {
            Some(p) => Some(p),
            None => None,
        }
    }
}

impl Default for Config {
    fn default() -> (r: Self)
        ensures
            r.export_path() is None,
    {
        Config::new()
    }
}

/// How the TypeScript bindings are exported: where to, with which header, and the
/// formatter run on the exported file, if any.
pub struct ExportConfig<F> {
    pub(crate) export_path: String,
    pub(crate) header: String,
    pub(crate) formatter: Option<F>,
}

impl<F> ExportConfig<F> {
    /// Where the bindings are exported to.
    pub closed spec fn path(&self) -> Seq<char> {
        self.export_path@
    }

    /// The header the exported file starts with.
    pub closed spec fn header_text(&self) -> Seq<char> {
        self.header@
    }

    /// The formatter run on the exported file, if any.
    pub closed spec fn formatter_fn(&self) -> Option<F> {
        self.formatter
    }

    /// Exports to `export_path`, with an empty header and no formatter.
    pub fn new(export_path: String) -> (r: Self)
        ensures
            r.path() == export_path@,
            r.header_text() == Seq::<char>::empty(),
            r.formatter_fn() is None,
    {
        ExportConfig { export_path, header: String::new(), formatter: None }
    }

    /// The same configuration with the given header.
    pub fn header(self, header: String) -> (r: Self)
        ensures
            r.path() == self.path(),
            r.header_text() == header@,
            r.formatter_fn() == self.formatter_fn(),
    {
        ExportConfig { header, ..self }
    }

    /// The same configuration with the given formatter.
    pub fn formatter(self, formatter: F) -> (r: Self)
        ensures
            r.path() == self.path(),
            r.header_text() == self.header_text(),
            r.formatter_fn() == Some(formatter),
    {
        ExportConfig { formatter: Some(formatter), ..self }
    }

    /// Where the bindings are exported to.
    pub fn export_path(&self) -> (r: &String)
        ensures
            r@ == self.path(),
    {
        &self.export_path
    }

    /// The header of the exported file.
    pub fn header_str(&self) -> (r: &String)
        ensures
            r@ == self.header_text(),
    {
        &self.header
    }

    /// The formatter, if any.
    pub fn formatter_ref(&self) -> (r: Option<&F>)
        ensures
            match r {
                Some(f) => self.formatter_fn() == Some(*f),
                None => self.formatter_fn() is None,
            },
    {
        match &self.formatter {
            Some(f) => Some(f),
            None => None,
        }
    }
}

} // verus!
