//! The parsed drawing and the context it is parsed in.
//!
//! The parser itself is not called from here. It ends the process on some
//! drawings that it should reject or accept (a marker scaled to nothing is
//! one), and nothing in this crate does that: the caller parses, in the context
//! that this module settles, and hands in what the parser gave.

use std::path::PathBuf;
use vstd::prelude::*;
use crate::error::{failed, ViewerError};

verus! {

/// `usvg::Tree`, a parsed drawing.
#[verifier::external_type_specification]
#[verifier::external_body]
pub struct ExTree(usvg::Tree);

/// `usvg::Options`: where files that a drawing refers to are looked for, the
/// fonts for its text, and the parser's settings.
#[verifier::external_type_specification]
#[verifier::external_body]
pub struct ExOptions(usvg::Options);

/// `usvg::Error`, the parser's reasons to reject its input.
#[verifier::external_type_specification]
#[verifier::external_body]
pub struct ExError(usvg::Error);

/// `fontdb::Database`, a set of fonts, under the path by which `usvg` hands it
/// on.
#[verifier::external_type_specification]
#[verifier::external_body]
pub struct ExDatabase(usvg::fontdb::Database);

/// `std::path::PathBuf`, a path as the platform writes it.
#[verifier::external_type_specification]
#[verifier::external_body]
pub struct ExPathBuf(PathBuf);

/// What `std::path::Path::parent` gives for the path `file`: the path without
/// its last component, where it has one to lose.
pub uninterp spec fn parent_of(file: PathBuf) -> Option<PathBuf>;

/// The options that `usvg` starts from, with `resources_dir` as the directory
/// for relative paths and `fonts` as the fonts.
pub uninterp spec fn options_of(
    resources_dir: Option<PathBuf>,
    fonts: usvg::fontdb::Database,
) -> usvg::Options;

/// `std::path::Path::parent`, with what it gives made a path of its own: the
/// path without its last component, or nothing where the path ends in a root
/// or is empty.
#[verifier::external_body]
fn parent_dir(file: &PathBuf) -> (dir: Option<PathBuf>)
    ensures
        dir == parent_of(*file),
{
    file.parent().map(|dir| dir.to_path_buf())
}

/// `usvg::Options::default`, with two of its fields set: the directory against
/// which relative paths are resolved, and the fonts.
#[verifier::external_body]
fn options_with(
    resources_dir: Option<PathBuf>,
    fonts: usvg::fontdb::Database,
) -> (options: usvg::Options)
    ensures
        options == options_of(resources_dir, fonts),
{
    usvg::Options { resources_dir, fontdb: fonts, ..Default::default() }
}

/// The directory in which a drawing in the file `file` finds what it refers to
/// by a relative path: the file's own directory, which is the path without its
/// last component. A path that ends in a root, or an empty one, has none.
pub fn resources_dir(file: &PathBuf) -> (dir: Option<PathBuf>)
    ensures
        dir == parent_of(*file),
{
    parent_dir(file)
}

/// The context of every parse. It is settled once, when the viewer starts, and
/// the first load and every later one use the same, so that what a drawing
/// refers to is always found in the same way.
pub struct ParseContext {
    options: usvg::Options,
}

impl View for ParseContext {
    type V = usvg::Options;

    closed spec fn view(&self) -> usvg::Options {
        self.options
    }
}

impl ParseContext {
    /// The context for the drawing in `file`: what the drawing refers to by a
    /// relative path is looked for in the file's own directory, and its text
    /// is set in `fonts`.
    pub fn for_file(file: &PathBuf, fonts: usvg::fontdb::Database) -> (context: ParseContext)
        ensures
            context@ == options_of(parent_of(*file), fonts),
    {
        ParseContext { options: options_with(resources_dir(file), fonts) }
    }

    /// The options to parse with.
    pub fn options(&self) -> (options: &usvg::Options)
        ensures
            *options == self@,
    {
        &self.options
    }
}

/// What reading the file and parsing its bytes gave: `None` where the file
/// could not be read, else the parser's answer, a tree or its reason to reject
/// the bytes.
pub type Parsed = Option<Result<usvg::Tree, usvg::Error>>;

/// What loading the file came to: the tree that the parser made of the file's
/// bytes, an I/O failure where there is nothing because the file could not be
/// read, a parse failure where the parser rejected the bytes.
pub open spec fn loaded(parsed: Parsed) -> Result<usvg::Tree, ViewerError> {
    match parsed {
        None => Err(ViewerError::Io),
        Some(Err(_)) => Err(ViewerError::Parse),
        Some(Ok(tree)) => Ok(tree),
    }
}

/// One parsed drawing. It is made whole or not at all, and never changed:
/// a newer drawing takes its place.
pub struct Document {
    tree: usvg::Tree,
}

impl View for Document {
    type V = usvg::Tree;

    closed spec fn view(&self) -> usvg::Tree {
        self.tree
    }
}

impl Document {
    /// The document for what reading and parsing the file gave: `None` where
    /// the file could not be read, else the parser's answer. There is a
    /// document exactly where the parser made a tree, and it holds this tree;
    /// a rejected file leaves nothing behind, not even part of a document.
    pub fn load(parsed: Parsed) -> (res: Result<Document, ViewerError>)
        ensures
            loaded(parsed) matches Ok(tree) ==> (res matches Ok(document) && document@ == tree),
            loaded(parsed) matches Err(e) ==> failed(res, e),
    {
        match parsed {
            None => Err(ViewerError::Io),
            Some(Err(_)) => Err(ViewerError::Parse),
            Some(Ok(tree)) => Ok(Document { tree }),
        }
    }

    /// The tree, for drawing it.
    pub fn tree(&self) -> (tree: &usvg::Tree)
        ensures
            *tree == self@,
    {
        &self.tree
    }
}

} // verus!
