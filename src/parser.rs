use vstd::prelude::*;
use vstd::utf8::{decode_utf8, valid_utf8};

use comrak::nodes::AstNode;
use comrak::Arena;

use crate::flavor::{options_of, Flavor};
use crate::options::Options;

verus! {

/// comrak's arena (typed_arena's `Arena`), which owns every node of a tree;
/// carried through unopened.
#[verifier::external_type_specification]
#[verifier::external_body]
#[verifier::reject_recursive_types(T)]
pub struct ExArena<T>(comrak::Arena<T>);

/// A node of comrak's tree; carried through unopened.
#[verifier::external_type_specification]
#[verifier::external_body]
#[verifier::reject_recursive_types(T)]
pub struct ExTreeNode<'a, T: 'a>(comrak::arena_tree::Node<'a, T>);

/// std's `RefCell`, which holds the data of each comrak node.
#[verifier::external_type_specification]
#[verifier::external_body]
#[verifier::reject_recursive_types(T)]
pub struct ExRefCell<T: ?Sized>(core::cell::RefCell<T>);

/// The data of a comrak node: its kind and source position.
#[verifier::external_type_specification]
#[verifier::external_body]
pub struct ExAst(comrak::nodes::Ast);

/// std's I/O error, kept as the cause of a failed read.
#[verifier::external_type_specification]
#[verifier::external_body]
pub struct ExIoError(std::io::Error);

/// What a tree built by comrak holds: the kind and attributes of each node
/// and its ordered children, in document order, as plain values.
pub uninterp spec fn shape_of(root: &AstNode) -> Seq<u8>;

/// The shape of the tree that comrak builds for `md` with the toggles `o`
/// set and every other setting at comrak's default.
pub uninterp spec fn parsed_shape(md: Seq<char>, o: Options) -> Seq<u8>;

/// Why a file could not be turned into a tree.
#[derive(Debug)]
pub enum ParseError {
    /// The file could not be read: it is missing, unreadable, or access was denied.
    Io { path: String, cause: std::io::Error },
    /// The file was read, but its bytes are not valid UTF-8 text.
    Encoding { path: String },
}

/// What a parse needs: the file to read, the flavor, and the toggles it selects.
pub struct ParseConfig {
    pub options: Options,
    pub flavor: Flavor,
    pub file_path: String,
}

impl ParseConfig {
    /// The toggles are those of the flavor.
    pub open spec fn wf(&self) -> bool {
        self.options == options_of(self.flavor)
    }

    /// A configuration for the file at `file_path`, with the toggles of `flavor`.
    pub fn new(file_path: &str, flavor: Flavor) -> (r: ParseConfig)
        ensures
            r.wf(),
            r.flavor == flavor,
            r.file_path@ == file_path@,
    {
        let options = flavor.to_options();
        ParseConfig { options, flavor, file_path: file_path.to_owned() }
    }
}

/// Relies on comrak::parse_document: builds the tree of `md` in `arena`, with
/// the toggles of `options` set on comrak's own option record, and returns its
/// root; the tree depends on the text and the settings alone.
#[verifier::external_body]
fn parse_with_comrak<'a>(arena: &'a Arena<AstNode<'a>>, md: &str, options: &Options) -> (r: &'a AstNode<'a>)
    ensures
        shape_of(r) == parsed_shape(md@, *options),
{
    let mut o = comrak::Options::default();
    o.extension.strikethrough = options.extension.strikethrough;
    o.extension.tagfilter = options.extension.tagfilter;
    o.extension.table = options.extension.table;
    o.extension.autolink = options.extension.autolink;
    o.extension.tasklist = options.extension.tasklist;
    o.render.github_pre_lang = options.render.github_pre_lang;
    o.render.gfm_quirks = options.render.gfm_quirks;
    comrak::parse_document(arena, md, &o)
}

/// Relies on std::str::from_utf8: it succeeds exactly when the bytes are valid
/// UTF-8, and the text then holds the characters that the bytes encode.
#[verifier::external_body]
fn decode_text(bytes: &[u8]) -> (r: Option<&str>)
    ensures
        r is Some <==> valid_utf8(bytes@),
        r matches Some(s) ==> s@ == decode_utf8(bytes@),
{
    std::str::from_utf8(bytes).ok()
}

/// Parses the text of a document under the configuration's toggles and
/// returns the root of its tree, which lives in `arena`.
pub fn parse_markdown<'a>(config: &ParseConfig, arena: &'a Arena<AstNode<'a>>, md: &str) -> (r: &'a AstNode<'a>)
    ensures
        shape_of(r) == parsed_shape(md@, config.options),
{
    parse_with_comrak(arena, md, &config.options)
}

/// Turns the outcome of reading the configured file into a tree: a failed
/// read gives the read error, bytes that are not UTF-8 give an encoding
/// error, and no tree is built in either case.
pub fn parse_file_contents<'a>(
    config: &ParseConfig,
    arena: &'a Arena<AstNode<'a>>,
    read: Result<Vec<u8>, std::io::Error>,
) -> (r: Result<&'a AstNode<'a>, ParseError>)
    ensures
        match read {
            Err(e) => r matches Err(ParseError::Io { path, cause }) && path@ == config.file_path@
                && cause == e,
            Ok(bytes) => if valid_utf8(bytes@) {
                r matches Ok(root) && shape_of(root) == parsed_shape(decode_utf8(bytes@), config.options)
            } else {
                r matches Err(ParseError::Encoding { path }) && path@ == config.file_path@
            },
        },
{
    match read {
        Err(cause) => Err(ParseError::Io { path: config.file_path.clone(), cause }),
        Ok(bytes) => match decode_text(bytes.as_slice()) {
            Some(md) => Ok(parse_markdown(config, arena, md)),
            None => Err(ParseError::Encoding { path: config.file_path.clone() }),
        },
    }
}

/// Parsing the same text twice under the same flavor gives trees of the same
/// shape, whatever arenas they live in.
pub proof fn lemma_parse_is_repeatable(
    md: Seq<char>,
    first: ParseConfig,
    second: ParseConfig,
    a: &AstNode,
    b: &AstNode,
)
    requires
        first.wf(),
        second.wf(),
        first.flavor == second.flavor,
        shape_of(a) == parsed_shape(md, first.options),
        shape_of(b) == parsed_shape(md, second.options),
    ensures
        shape_of(a) == shape_of(b),
{
}

} // verus!
