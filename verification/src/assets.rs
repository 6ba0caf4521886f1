//! The template store: a static mapping from platform identifier to the
//! literal text of that platform's theme template.
//!
//! A template is a sequence of `key: value` lines. The store's contract is
//! purely textual: callers hand a template to the model and require that the
//! keys be preserved verbatim, with only the values changed.

use crate::text::{key_matches, lower_seq, str_eq};
use vstd::prelude::*;

verus! {

broadcast use vstd::string::group_string_axioms;

pub const ANDROID_THEME_PATH: &'static str = "themes/template_android_theme.txt";

pub const IOS_THEME_PATH: &'static str = "themes/template_ios_theme.txt";

pub const MACOS_THEME_PATH: &'static str = "themes/template_macos_theme.txt";

pub const TDESKTOP_THEME_PATH: &'static str = "themes/template_tdesktop_theme.txt";

pub const ANDROID_THEME_TEMPLATE: &'static str = "name: Default Android\nbackground: #FFFFFF\nprimary_text: #222222\nsecondary_text: #8A8A8A\naccent: #2481CC\nbubble_incoming: #F1F1F4\nbubble_outgoing: #EFFDDE\nlink: #2678B6\n";

pub const IOS_THEME_TEMPLATE: &'static str = "name: Default iOS\nbackground: #EFEFF4\nprimary_text: #000000\nsecondary_text: #8E8E93\naccent: #007AFF\nbubble_incoming: #E5E5EA\nbubble_outgoing: #DCF8C6\nlink: #004BAD\n";

pub const MACOS_THEME_TEMPLATE: &'static str = "name: Default macOS\nbackground: #FFFFFF\nprimary_text: #000000\nsecondary_text: #999999\naccent: #2B8DDB\nbubble_incoming: #F4F4F4\nbubble_outgoing: #DFF5C7\nlink: #2B71B0\n";

pub const TDESKTOP_THEME_TEMPLATE: &'static str = "name: Default Desktop\nbackground: #FFFFFF\nprimary_text: #000000\nsecondary_text: #999999\naccent: #40A7E3\nbubble_incoming: #FFFFFF\nbubble_outgoing: #EFFDDE\nlink: #168ACD\n";

/// What the embedded asset store holds at each path.
pub open spec fn asset_lookup(path: Seq<char>) -> Option<Seq<char>> {
    if path == ANDROID_THEME_PATH@ {
        Some(ANDROID_THEME_TEMPLATE@)
    } else if path == IOS_THEME_PATH@ {
        Some(IOS_THEME_TEMPLATE@)
    } else if path == MACOS_THEME_PATH@ {
        Some(MACOS_THEME_TEMPLATE@)
    } else if path == TDESKTOP_THEME_PATH@ {
        Some(TDESKTOP_THEME_TEMPLATE@)
    } else {
        None
    }
}

/// The platform keys the template store recognizes (already lower-cased).
pub open spec fn supported_key(key: Seq<char>) -> bool {
    ||| key == "android"@
    ||| key == "ios"@
    ||| key == "macos"@
    ||| key == "tdesktop"@
}

/// What the template store returns for a platform identifier: the lookup is
/// case-insensitive, and unrecognized identifiers have no template.
pub open spec fn template_lookup(key: Seq<char>) -> Option<Seq<char>> {
    let k = lower_seq(key);
    if k == "android"@ {
        Some(ANDROID_THEME_TEMPLATE@)
    } else if k == "ios"@ {
        Some(IOS_THEME_TEMPLATE@)
    } else if k == "macos"@ {
        Some(MACOS_THEME_TEMPLATE@)
    } else if k == "tdesktop"@ {
        Some(TDESKTOP_THEME_TEMPLATE@)
    } else {
        None
    }
}

/// Container for the embedded template assets, addressed by file path.
pub struct Assets;

impl Assets {
    /// The content of the embedded text asset at `path`, or `None` if no
    /// asset lives there.
    pub fn get(path: &str) -> (r: Option<String>)
        ensures
            (match asset_lookup(path@) {
                Some(t) => (r matches Some(s) && s@ == t),
                None => r is None,
            }),
    {
        if str_eq(path, ANDROID_THEME_PATH) {
            Some(String::from_str(ANDROID_THEME_TEMPLATE))
        } else if str_eq(path, IOS_THEME_PATH) {
            Some(String::from_str(IOS_THEME_TEMPLATE))
        } else if str_eq(path, MACOS_THEME_PATH) {
            Some(String::from_str(MACOS_THEME_TEMPLATE))
        } else if str_eq(path, TDESKTOP_THEME_PATH) {
            Some(String::from_str(TDESKTOP_THEME_TEMPLATE))
        } else {
            None
        }
    }
}

/// The theme template for a platform identifier, looked up case-insensitively;
/// `None` if the identifier is unrecognized.
pub fn get_theme_template(platform: &str) -> (r: Option<String>)
    ensures
        (match template_lookup(platform@) {
            Some(t) => (r matches Some(s) && s@ == t),
            None => r is None,
        }),
{
    proof {
        reveal_strlit("themes/template_android_theme.txt");
        reveal_strlit("themes/template_ios_theme.txt");
        reveal_strlit("themes/template_macos_theme.txt");
        reveal_strlit("themes/template_tdesktop_theme.txt");
        // The four asset paths have pairwise distinct lengths, so the
        // branches of `asset_lookup` cannot be confused with one another.
        assert(ANDROID_THEME_PATH@.len() == 33);
        assert(IOS_THEME_PATH@.len() == 29);
        assert(MACOS_THEME_PATH@.len() == 31);
        assert(TDESKTOP_THEME_PATH@.len() == 34);
    }
    if key_matches(platform, "android") {
        Assets::get(ANDROID_THEME_PATH)
    } else if key_matches(platform, "ios") {
        Assets::get(IOS_THEME_PATH)
    } else if key_matches(platform, "macos") {
        Assets::get(MACOS_THEME_PATH)
    } else if key_matches(platform, "tdesktop") {
        Assets::get(TDESKTOP_THEME_PATH)
    } else {
        None
    }
}

/// The template store is case-insensitive: a platform identifier and its
/// lower-cased form name the same template, and every supported identifier
/// names a non-empty one.
pub proof fn lemma_template_lookup_case_insensitive(key: Seq<char>)
    ensures
        template_lookup(key) == template_lookup(lower_seq(key)),
        supported_key(lower_seq(key)) ==> (template_lookup(key) matches Some(t) && t.len() > 0),
{
    crate::text::lemma_lower_seq_idempotent(key);
    if supported_key(lower_seq(key)) {
        reveal_strlit("name: Default Android\nbackground: #FFFFFF\nprimary_text: #222222\nsecondary_text: #8A8A8A\naccent: #2481CC\nbubble_incoming: #F1F1F4\nbubble_outgoing: #EFFDDE\nlink: #2678B6\n");
        reveal_strlit("name: Default iOS\nbackground: #EFEFF4\nprimary_text: #000000\nsecondary_text: #8E8E93\naccent: #007AFF\nbubble_incoming: #E5E5EA\nbubble_outgoing: #DCF8C6\nlink: #004BAD\n");
        reveal_strlit("name: Default macOS\nbackground: #FFFFFF\nprimary_text: #000000\nsecondary_text: #999999\naccent: #2B8DDB\nbubble_incoming: #F4F4F4\nbubble_outgoing: #DFF5C7\nlink: #2B71B0\n");
        reveal_strlit("name: Default Desktop\nbackground: #FFFFFF\nprimary_text: #000000\nsecondary_text: #999999\naccent: #40A7E3\nbubble_incoming: #FFFFFF\nbubble_outgoing: #EFFDDE\nlink: #168ACD\n");
    }
}

} // verus!
