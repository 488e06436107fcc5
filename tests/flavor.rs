use mdflavor::flavor::Flavor;
use mdflavor::options::Options;

#[test]
fn test_flavor_as_string() {
    assert_eq!(Flavor::CommonMark.as_string(), "CommonMark");
    assert_eq!(Flavor::GitHub.as_string(), "GitHub");
}

#[test]
fn test_flavor_from_string() {
    assert_eq!(Flavor::from_string("CommonMark"), Some(Flavor::CommonMark));
    assert_eq!(Flavor::from_string("GitHub"), Some(Flavor::GitHub));
    assert_eq!(Flavor::from_string("Unknown"), None);
}

#[test]
fn test_flavor_to_options() {
    let commonmark_options = Flavor::CommonMark.to_options();
    assert!(!commonmark_options.extension.table);

    let github_options = Flavor::GitHub.to_options();
    assert!(github_options.extension.table);
    assert!(github_options.extension.strikethrough);
    assert!(github_options.render.github_pre_lang);
}

#[test]
fn commonmark_name_reads_back() {
    let name = Flavor::CommonMark.as_string();
    assert_eq!(Flavor::from_string(name), Some(Flavor::CommonMark));
}

#[test]
fn github_name_reads_back() {
    let name = Flavor::GitHub.as_string();
    assert_eq!(Flavor::from_string(name), Some(Flavor::GitHub));
    assert_eq!(Flavor::from_string("GitHub Flavored Markdown"), None);
}

#[test]
fn unrecognized_names_select_nothing() {
    assert_eq!(Flavor::from_string(""), None);
    assert_eq!(Flavor::from_string("commonmark"), None);
    assert_eq!(Flavor::from_string("github"), None);
    assert_eq!(Flavor::from_string("GFM"), None);
    assert_eq!(Flavor::from_string("CommonMark "), None);
    assert_eq!(Flavor::from_string("GitHubX"), None);
    assert_eq!(Flavor::from_string("GitHü"), None);
}

#[test]
fn commonmark_options_are_all_off() {
    let o = Flavor::CommonMark.to_options();
    assert!(!o.extension.strikethrough);
    assert!(!o.extension.tagfilter);
    assert!(!o.extension.table);
    assert!(!o.extension.autolink);
    assert!(!o.extension.tasklist);
    assert!(!o.render.github_pre_lang);
    assert!(!o.render.gfm_quirks);
    assert_eq!(o, Options::default());
}

#[test]
fn github_options_enable_gfm_extensions() {
    let o = Flavor::GitHub.to_options();
    assert!(o.extension.strikethrough);
    assert!(o.extension.tagfilter);
    assert!(o.extension.table);
    assert!(o.extension.autolink);
    assert!(o.extension.tasklist);
    assert!(o.render.github_pre_lang);
    assert!(o.render.gfm_quirks);
    assert_ne!(o, Flavor::CommonMark.to_options());
}
