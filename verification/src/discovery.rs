//! Where the supervisor's own configuration file is looked for.
//!
//! The library names the places, in the order in which they are tried, and
//! picks the first at which a file was found. Reading the environment and
//! probing the file system is the caller's part.

use vstd::prelude::*;
use vstd::string::StringExecFns;

verus! {

/// The directory under which a place lies.
#[derive(Clone, Copy, Debug, PartialEq, Eq, Structural)]
pub enum SearchRoot {
    /// The directory that the environment variable `XDG_CONFIG_HOME` names.
    XdgConfigHome,
    /// The user's home directory.
    HomeDir,
}

/// A place where the configuration file may lie: a root directory and the
/// path components below it, outermost first.
pub struct SearchLocation {
    pub root: SearchRoot,
    pub components: Vec<String>,
}

/// A place as a mathematical value.
pub struct SearchLocationView {
    pub root: SearchRoot,
    pub components: Seq<Seq<char>>,
}

impl View for SearchLocation {
    type V = SearchLocationView;

    open spec fn view(&self) -> SearchLocationView {
        SearchLocationView { root: self.root, components: self.components.deep_view() }
    }
}

impl DeepView for SearchLocation {
    type V = SearchLocationView;

    open spec fn deep_view(&self) -> SearchLocationView {
        self@
    }
}

/// The place below `XDG_CONFIG_HOME`: `<app_name>/<file_name>`.
pub open spec fn under_xdg_config_home(
    app_name: Seq<char>,
    file_name: Seq<char>,
) -> SearchLocationView {
    SearchLocationView { root: SearchRoot::XdgConfigHome, components: seq![app_name, file_name] }
}

/// The place below the home directory: `.config/<app_name>/<file_name>`.
pub open spec fn under_home_dir(app_name: Seq<char>, file_name: Seq<char>) -> SearchLocationView {
    SearchLocationView {
        root: SearchRoot::HomeDir,
        components: seq![".config"@, app_name, file_name],
    }
}

/// The places to try, in order: the one below `XDG_CONFIG_HOME` where that
/// variable is set, then the one below the home directory where that
/// directory is known.
pub open spec fn search_locations_for(
    xdg_config_home_set: bool,
    home_dir_known: bool,
    app_name: Seq<char>,
    file_name: Seq<char>,
) -> Seq<SearchLocationView> {
    let first = if xdg_config_home_set {
        seq![under_xdg_config_home(app_name, file_name)]
    } else {
        seq![]
    };
    let second = if home_dir_known {
        seq![under_home_dir(app_name, file_name)]
    } else {
        seq![]
    };
    first + second
}

/// Names the places where the file `file_name` of the application
/// `app_name` is looked for, in the order in which they are tried.
pub fn search_locations(
    xdg_config_home_set: bool,
    home_dir_known: bool,
    app_name: &str,
    file_name: &str,
) -> (locations: Vec<SearchLocation>)
    ensures
        locations.deep_view() == search_locations_for(
            xdg_config_home_set,
            home_dir_known,
            app_name@,
            file_name@,
        ),
{
    let mut locations: Vec<SearchLocation> = Vec::new();
    if xdg_config_home_set {
        let mut components: Vec<String> = Vec::new();
        components.push(String::from_str(app_name));
        components.push(String::from_str(file_name));
        let location = SearchLocation { root: SearchRoot::XdgConfigHome, components };
        assert(location@.components =~= under_xdg_config_home(app_name@, file_name@).components);
        locations.push(location);
    }
    if home_dir_known {
        let mut components: Vec<String> = Vec::new();
        components.push(String::from_str(".config"));
        components.push(String::from_str(app_name));
        components.push(String::from_str(file_name));
        let location = SearchLocation { root: SearchRoot::HomeDir, components };
        assert(location@.components =~= under_home_dir(app_name@, file_name@).components);
        locations.push(location);
    }
    locations
}

/// Names the places where the supervisor's configuration file,
/// `hypr/hypridle_manager.ron`, is looked for.
pub fn config_search_locations(xdg_config_home_set: bool, home_dir_known: bool) -> (locations: Vec<
    SearchLocation,
>)
    ensures
        locations.deep_view() == search_locations_for(
            xdg_config_home_set,
            home_dir_known,
            "hypr"@,
            "hypridle_manager.ron"@,
        ),
{
    search_locations(xdg_config_home_set, home_dir_known, "hypr", "hypridle_manager.ron")
}

/// Whether no file was found at any of the first `count` places, where
/// `exists` says of each place, in the order in which they are tried,
/// whether one was.
pub open spec fn none_exists_before(exists: Seq<bool>, count: int) -> bool {
    forall|index: int| 0 <= index < count && index < exists.len() ==> !exists[index]
}

/// Whether no file was found at any place.
pub open spec fn none_exists(exists: Seq<bool>) -> bool {
    none_exists_before(exists, exists.len() as int)
}

/// Whether `index` is the first place at which a file was found: one was
/// found there, and none at any place before it.
pub open spec fn is_first_existing(exists: Seq<bool>, index: int) -> bool {
    &&& 0 <= index < exists.len()
    &&& exists[index]
    &&& none_exists_before(exists, index)
}

/// Picks the first place at which a file was found, given for each place, in
/// the order in which they are tried, whether one was. There is none exactly
/// when no file was found anywhere.
pub fn first_existing(exists: &[bool]) -> (found: Option<usize>)
    ensures
        match found {
            Some(index) => is_first_existing(exists@, index as int),
            None => none_exists(exists@),
        },
        found is None <==> none_exists(exists@),
{
    let mut index: usize = 0;
    while index < exists.len()
        invariant
            index <= exists@.len(),
            none_exists_before(exists@, index as int),
        decreases exists@.len() - index,
    {
        if exists[index] {
            return Some(index);
        }
        index = index + 1;
    }
    None
}

} // verus!
