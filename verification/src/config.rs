//! The workspace configuration that the server gets when the user has set
//! none: the server's own defaults.

use vstd::prelude::*;
use vstd::string::StringExecFns;
use crate::text::string_views;

verus! {

broadcast use vstd::string::group_string_axioms;

/// The key under which the server asks for its settings.
pub const SETTINGS_KEY: &'static str = "cssVariables";

/// The key of the lookup globs inside the settings.
pub const LOOKUP_FILES_KEY: &'static str = "lookupFiles";

/// The key of the ignored folders inside the settings.
pub const BLACKLIST_FOLDERS_KEY: &'static str = "blacklistFolders";

/// The globs of the files that are searched for variables.
pub open spec fn default_lookup_files_of() -> Seq<Seq<char>> {
    seq!["**/*.less"@, "**/*.scss"@, "**/*.sass"@, "**/*.css"@]
}

/// The globs of the folders that are not searched.
pub open spec fn default_blacklist_folders_of() -> Seq<Seq<char>> {
    seq![
        "**/.cache"@,
        "**/.DS_Store"@,
        "**/.git"@,
        "**/.hg"@,
        "**/.next"@,
        "**/.svn"@,
        "**/bower_components"@,
        "**/CVS"@,
        "**/dist"@,
        "**/node_modules"@,
        "**/tests"@,
        "**/tmp"@,
    ]
}

/// The globs of the files that are searched for variables.
pub fn default_lookup_files() -> (globs: Vec<String>)
    ensures
        string_views(globs@) == default_lookup_files_of(),
{
    let mut globs: Vec<String> = Vec::new();
    globs.push(String::from_str("**/*.less"));
    globs.push(String::from_str("**/*.scss"));
    globs.push(String::from_str("**/*.sass"));
    globs.push(String::from_str("**/*.css"));
    assert(string_views(globs@) =~= default_lookup_files_of());
    globs
}

/// The globs of the folders that are not searched.
pub fn default_blacklist_folders() -> (globs: Vec<String>)
    ensures
        string_views(globs@) == default_blacklist_folders_of(),
{
    let mut globs: Vec<String> = Vec::new();
    globs.push(String::from_str("**/.cache"));
    globs.push(String::from_str("**/.DS_Store"));
    globs.push(String::from_str("**/.git"));
    globs.push(String::from_str("**/.hg"));
    globs.push(String::from_str("**/.next"));
    globs.push(String::from_str("**/.svn"));
    globs.push(String::from_str("**/bower_components"));
    globs.push(String::from_str("**/CVS"));
    globs.push(String::from_str("**/dist"));
    globs.push(String::from_str("**/node_modules"));
    globs.push(String::from_str("**/tests"));
    globs.push(String::from_str("**/tmp"));
    assert(string_views(globs@) =~= default_blacklist_folders_of());
    globs
}

} // verus!
