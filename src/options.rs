use vstd::prelude::*;

verus! {

/// Which syntax extensions the parser recognizes.
#[derive(Debug, Clone, Copy, PartialEq, Eq, Structural)]
pub struct ExtensionOptions {
    /// `~~text~~` spans.
    pub strikethrough: bool,
    /// Escaping of a fixed list of raw HTML tags.
    pub tagfilter: bool,
    /// Pipe tables.
    pub table: bool,
    /// Bare URLs and e-mail addresses as links.
    pub autolink: bool,
    /// `[ ]` and `[x]` list items.
    pub tasklist: bool,
}

/// Settings that shape the output produced from a tree.
#[derive(Debug, Clone, Copy, PartialEq, Eq, Structural)]
pub struct RenderOptions {
    /// Code fence languages as a `lang` attribute on `<pre>`.
    pub github_pre_lang: bool,
    /// GitHub's handling of nested emphasis.
    pub gfm_quirks: bool,
}

/// The complete set of parser feature toggles.
#[derive(Debug, Clone, Copy, PartialEq, Eq, Structural)]
pub struct Options {
    pub extension: ExtensionOptions,
    pub render: RenderOptions,
}

impl Options {
    /// Every toggle is off: plain CommonMark.
    pub open spec fn is_baseline(self) -> bool {
        &&& !self.extension.strikethrough
        &&& !self.extension.tagfilter
        &&& !self.extension.table
        &&& !self.extension.autolink
        &&& !self.extension.tasklist
        &&& !self.render.github_pre_lang
        &&& !self.render.gfm_quirks
    }

    /// Every toggle that is on in `other` is on here too.
    pub open spec fn includes(self, other: Options) -> bool {
        &&& other.extension.strikethrough ==> self.extension.strikethrough
        &&& other.extension.tagfilter ==> self.extension.tagfilter
        &&& other.extension.table ==> self.extension.table
        &&& other.extension.autolink ==> self.extension.autolink
        &&& other.extension.tasklist ==> self.extension.tasklist
        &&& other.render.github_pre_lang ==> self.render.github_pre_lang
        &&& other.render.gfm_quirks ==> self.render.gfm_quirks
    }

    /// The GitHub extensions (tables, strikethrough, autolinks, tag filtering,
    /// task lists) are all on.
    pub open spec fn has_gfm_extensions(self) -> bool {
        &&& self.extension.strikethrough
        &&& self.extension.tagfilter
        &&& self.extension.table
        &&& self.extension.autolink
        &&& self.extension.tasklist
    }
}

impl Default for Options {
    fn default() -> (r: Options)
        ensures
            r.is_baseline(),
    {
        Options {
            extension: ExtensionOptions {
                strikethrough: false,
                tagfilter: false,
                table: false,
                autolink: false,
                tasklist: false,
            },
            render: RenderOptions { github_pre_lang: false, gfm_quirks: false },
        }
    }
}

} // verus!
