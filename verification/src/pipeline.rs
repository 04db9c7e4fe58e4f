//! Shader libraries and render pipeline state.
//!
//! A library is an opaque compiled shader module, produced from source text
//! and a human-readable name.  A pipeline state is the fixed-function and
//! shader-stage configuration built from a library through a builder.  The
//! builder requires all three of vertex entry point, fragment entry point
//! and color format to be set; `build` fails with a configuration error
//! naming the first missing field, checked in that order.

use vstd::prelude::*;
use vstd::string::StringExecFns;
use crate::errors::{Error, MissingField};
use crate::types::PixelFormat;

verus! {

/// An opaque compiled shader module.
///
/// Immutable after compilation; consumed into pipeline states through a
/// builder.
pub struct Library {
    name: String,
    source: String,
}

impl Library {
    /// The human-readable name the library was compiled under, for use in
    /// specifications.
    pub closed spec fn spec_name(self) -> Seq<char> {
        self.name@
    }

    /// The source text the library was compiled from, for use in
    /// specifications.
    pub closed spec fn spec_source(self) -> Seq<char> {
        self.source@
    }

    /// Registers a module compiled from `source` under `name`.
    pub(crate) fn from_parts(name: &str, source: &str) -> (r: Library)
        ensures
            r.spec_name() == name@,
            r.spec_source() == source@,
    {
        Library { name: String::from_str(name), source: String::from_str(source) }
    }

    /// The human-readable name the library was compiled under.
    pub fn name(&self) -> (r: &String)
        ensures
            r@ == self.spec_name(),
    {
        &self.name
    }

    /// The source text the library was compiled from.
    pub fn source(&self) -> (r: &String)
        ensures
            r@ == self.spec_source(),
    {
        &self.source
    }
}

/// Compiled, fixed-function-configured pipeline state, ready to be bound
/// for drawing.  Immutable once built.
pub struct PipelineState {
    library: String,
    vertex_function: String,
    fragment_function: String,
    color_format: PixelFormat,
    blending: bool,
}

impl PipelineState {
    /// The name of the library the pipeline was built over, for use in
    /// specifications.
    pub closed spec fn spec_library(self) -> Seq<char> {
        self.library@
    }

    /// The name of the library the pipeline was built over.
    pub fn library(&self) -> (r: &String)
        ensures
            r@ == self.spec_library(),
    {
        &self.library
    }

    /// The vertex entry point, for use in specifications.
    pub closed spec fn spec_vertex_function(self) -> Seq<char> {
        self.vertex_function@
    }

    /// The fragment entry point, for use in specifications.
    pub closed spec fn spec_fragment_function(self) -> Seq<char> {
        self.fragment_function@
    }

    /// The target color pixel format, for use in specifications.
    pub closed spec fn spec_color_format(self) -> PixelFormat {
        self.color_format
    }

    /// Whether blending is enabled, for use in specifications.
    pub closed spec fn spec_blending(self) -> bool {
        self.blending
    }

    /// The name of the vertex entry point.
    pub fn vertex_function(&self) -> (r: &String)
        ensures
            r@ == self.spec_vertex_function(),
    {
        &self.vertex_function
    }

    /// The name of the fragment entry point.
    pub fn fragment_function(&self) -> (r: &String)
        ensures
            r@ == self.spec_fragment_function(),
    {
        &self.fragment_function
    }

    /// The target color pixel format.
    pub fn color_format(&self) -> (r: PixelFormat)
        ensures
            r == self.spec_color_format(),
    {
        self.color_format
    }

    /// Whether blending is enabled.
    pub fn blending(&self) -> (r: bool)
        ensures
            r == self.spec_blending(),
    {
        self.blending
    }
}

/// A builder for pipeline state over a compiled library.
///
/// A fresh builder over the same library supports rebuilding with different
/// entry points or color formats without recompiling the library.
pub struct RenderPipelineBuilder {
    library: String,
    vertex_name: Option<String>,
    fragment_name: Option<String>,
    color_format: Option<PixelFormat>,
    blending: bool,
}

impl RenderPipelineBuilder {
    /// The name of the library the builder builds over, for use in
    /// specifications.
    pub closed spec fn spec_library(self) -> Seq<char> {
        self.library@
    }

    /// The vertex entry point set so far, for use in specifications.
    pub closed spec fn spec_vertex(self) -> Option<Seq<char>> {
        match self.vertex_name {
            Some(s) => Some(s@),
            None => None,
        }
    }

    /// The fragment entry point set so far, for use in specifications.
    pub closed spec fn spec_fragment(self) -> Option<Seq<char>> {
        match self.fragment_name {
            Some(s) => Some(s@),
            None => None,
        }
    }

    /// The color format set so far, for use in specifications.
    pub closed spec fn spec_color_format(self) -> Option<PixelFormat> {
        self.color_format
    }

    /// Whether blending was requested, for use in specifications.
    pub closed spec fn spec_blending(self) -> bool {
        self.blending
    }

    /// A fresh builder over `library`, with no field set and blending
    /// disabled.
    pub(crate) fn over_library(library: &Library) -> (r: RenderPipelineBuilder)
        ensures
            r.spec_library() == library.spec_name(),
            r.spec_vertex() is None,
            r.spec_fragment() is None,
            r.spec_color_format() is None,
            !r.spec_blending(),
    {
        RenderPipelineBuilder {
            library: String::from_str(library.name().as_str()),
            vertex_name: None,
            fragment_name: None,
            color_format: None,
            blending: false,
        }
    }

    /// Sets the vertex entry point.
    pub fn vertex(self, name: &str) -> (r: Self)
        ensures
            r.spec_library() == self.spec_library(),
            r.spec_vertex() == Some(name@),
            r.spec_fragment() == self.spec_fragment(),
            r.spec_color_format() == self.spec_color_format(),
            r.spec_blending() == self.spec_blending(),
    {
        RenderPipelineBuilder { vertex_name: Some(String::from_str(name)), ..self }
    }

    /// Sets the fragment entry point.
    pub fn fragment(self, name: &str) -> (r: Self)
        ensures
            r.spec_library() == self.spec_library(),
            r.spec_fragment() == Some(name@),
            r.spec_vertex() == self.spec_vertex(),
            r.spec_color_format() == self.spec_color_format(),
            r.spec_blending() == self.spec_blending(),
    {
        RenderPipelineBuilder { fragment_name: Some(String::from_str(name)), ..self }
    }

    /// Sets the target color pixel format.
    pub fn color_format(self, pf: PixelFormat) -> (r: Self)
        ensures
            r.spec_library() == self.spec_library(),
            r.spec_color_format() == Some(pf),
            r.spec_vertex() == self.spec_vertex(),
            r.spec_fragment() == self.spec_fragment(),
            r.spec_blending() == self.spec_blending(),
    {
        RenderPipelineBuilder { color_format: Some(pf), ..self }
    }

    /// Enables or disables blending.
    pub fn blending(self, enabled: bool) -> (r: Self)
        ensures
            r.spec_library() == self.spec_library(),
            r.spec_blending() == enabled,
            r.spec_vertex() == self.spec_vertex(),
            r.spec_fragment() == self.spec_fragment(),
            r.spec_color_format() == self.spec_color_format(),
    {
        RenderPipelineBuilder { blending: enabled, ..self }
    }

    /// Builds the pipeline state.
    ///
    /// Fails with a configuration error naming the missing field if the
    /// vertex entry point, the fragment entry point or the color format is
    /// unset, checked in that order; succeeds exactly when all three are
    /// set, carrying them into the pipeline state unchanged.
    pub fn build(self) -> (r: Result<PipelineState, Error>)
        ensures
            self.spec_vertex() is None ==> r == Err::<PipelineState, Error>(
                Error::ConfigError { missing: MissingField::VertexFunction },
            ),
            self.spec_vertex() is Some && self.spec_fragment() is None ==> r
                == Err::<PipelineState, Error>(
                Error::ConfigError { missing: MissingField::FragmentFunction },
            ),
            self.spec_vertex() is Some && self.spec_fragment() is Some
                && self.spec_color_format() is None ==> r == Err::<PipelineState, Error>(
                Error::ConfigError { missing: MissingField::ColorFormat },
            ),
            self.spec_vertex() is Some && self.spec_fragment() is Some
                && self.spec_color_format() is Some ==> {
                &&& r matches Ok(ps)
                &&& ps.spec_library() == self.spec_library()
                &&& ps.spec_vertex_function() == self.spec_vertex().unwrap()
                &&& ps.spec_fragment_function() == self.spec_fragment().unwrap()
                &&& ps.spec_color_format() == self.spec_color_format().unwrap()
                &&& ps.spec_blending() == self.spec_blending()
            },
    {
        let RenderPipelineBuilder { library, vertex_name, fragment_name, color_format, blending } =
            self;
        let vertex_function = match vertex_name {
            Some(v) => v,
            None => {
                return Err(Error::ConfigError { missing: MissingField::VertexFunction });
            },
        };
        let fragment_function = match fragment_name {
            Some(f) => f,
            None => {
                return Err(Error::ConfigError { missing: MissingField::FragmentFunction });
            },
        };
        let color_format = match color_format {
            Some(cf) => cf,
            None => {
                return Err(Error::ConfigError { missing: MissingField::ColorFormat });
            },
        };
        Ok(PipelineState { library, vertex_function, fragment_function, color_format, blending })
    }
}

} // verus!
