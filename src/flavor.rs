use vstd::prelude::*;

use crate::options::{ExtensionOptions, Options, RenderOptions};
use crate::text::same_text;

verus! {

/// The Markdown dialects that a document can be parsed as.
#[derive(Debug, Clone, Copy, PartialEq, Eq, Structural)]
pub enum Flavor {
    CommonMark,
    GitHub,
}

/// The name of a flavor, which is also the name that selects it.
pub open spec fn display_name(f: Flavor) -> Seq<char> {
    match f {
        Flavor::CommonMark => "CommonMark"@,
        Flavor::GitHub => "GitHub"@,
    }
}

/// The flavor that a name selects, if it is one of the recognized names.
pub open spec fn flavor_named(s: Seq<char>) -> Option<Flavor> {
    if s == "CommonMark"@ {
        Some(Flavor::CommonMark)
    } else if s == "GitHub"@ {
        Some(Flavor::GitHub)
    } else {
        None
    }
}

/// The feature toggles that a flavor selects: none for CommonMark; for GitHub
/// the five GFM extensions, GitHub's code fence output and its emphasis quirks.
pub open spec fn options_of(f: Flavor) -> Options {
    match f {
        Flavor::CommonMark => Options {
            extension: ExtensionOptions {
                strikethrough: false,
                tagfilter: false,
                table: false,
                autolink: false,
                tasklist: false,
            },
            render: RenderOptions { github_pre_lang: false, gfm_quirks: false },
        },
        Flavor::GitHub => Options {
            extension: ExtensionOptions {
                strikethrough: true,
                tagfilter: true,
                table: true,
                autolink: true,
                tasklist: true,
            },
            render: RenderOptions { github_pre_lang: true, gfm_quirks: true },
        },
    }
}

impl Flavor {
    /// Returns a string representation of the flavor.
    pub fn as_string(&self) -> (r: &'static str)
        ensures
            r@ == display_name(*self),
    {
        match self {
            Flavor::CommonMark => "CommonMark",
            Flavor::GitHub => "GitHub",
        }
    }

    /// Returns the flavor that the string names, or `None` for an unrecognized name.
    pub fn from_string(s: &str) -> (r: Option<Flavor>)
        ensures
            r == flavor_named(s@),
    {
        if same_text(s, "CommonMark") {
            Some(Flavor::CommonMark)
        } else if same_text(s, "GitHub") {
            Some(Flavor::GitHub)
        } else {
            None
        }
    }

    /// Returns the parser feature toggles for the flavor.
    pub fn to_options(&self) -> (r: Options)
        ensures
            r == options_of(*self),
    {
        match self {
            Flavor::CommonMark => Options::default(),
            Flavor::GitHub => Options {
                extension: ExtensionOptions {
                    table: true,
                    strikethrough: true,
                    autolink: true,
                    tagfilter: true,
                    tasklist: true,
                },
                render: RenderOptions { github_pre_lang: true, gfm_quirks: true },
            },
        }
    }
}

/// Reading back the name of a flavor gives the same flavor, and a name that
/// selects a flavor is that flavor's name.
pub proof fn lemma_name_round_trip(f: Flavor, s: Seq<char>)
    ensures
        flavor_named(display_name(f)) == Some(f),
        flavor_named(s) == Some(f) ==> display_name(f) == s,
{
    reveal_strlit("CommonMark");
    reveal_strlit("GitHub");
    assert("CommonMark"@.len() == 10);
    assert("GitHub"@.len() == 6);
}

/// The names that select a flavor are exactly "CommonMark" and "GitHub"; every
/// other string selects none.
pub proof fn lemma_unknown_name(s: Seq<char>)
    requires
        s != "CommonMark"@,
        s != "GitHub"@,
    ensures
        flavor_named(s) is None,
{
}

/// CommonMark has every toggle off; GitHub has tables, strikethrough,
/// autolinks, tag filtering and task lists on, and every toggle of CommonMark.
pub proof fn lemma_flavor_options()
    ensures
        options_of(Flavor::CommonMark).is_baseline(),
        options_of(Flavor::GitHub).has_gfm_extensions(),
        options_of(Flavor::GitHub).includes(options_of(Flavor::CommonMark)),
        options_of(Flavor::GitHub) != options_of(Flavor::CommonMark),
{
}

} // verus!
