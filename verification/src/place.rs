//! Where the shell's files stand.

use vstd::prelude::*;

use crate::platform::{node_bin_name, Platform};

verus! {

/// A directory that the system or the user gives.
#[derive(Clone, Copy, PartialEq, Eq, Structural, Debug)]
pub enum Root {
    /// The user's home directory.
    Home,
    /// The directory for the application's own data.
    AppData,
    /// The read-only resources inside the application bundle.
    Resources,
    /// The source tree that a debug build was made from.
    SourceTree,
    /// The directory that the environment variable `DSH_HOME` names.
    DshHome,
}

/// A path: a root, and what is joined to it, one part after the other.
#[derive(Debug, PartialEq, Eq)]
pub struct Place {
    pub root: Root,
    pub parts: Vec<String>,
}

/// A [`Place`] with its parts as character sequences.
#[verifier::ext_equal]
pub struct PlaceData {
    pub root: Root,
    pub parts: Seq<Seq<char>>,
}

impl View for Place {
    type V = PlaceData;

    open spec fn view(&self) -> PlaceData {
        PlaceData { root: self.root, parts: self.parts@.map_values(|p: String| p@) }
    }
}

impl PlaceData {
    /// The place of `name` in this directory.
    pub open spec fn join(self, name: Seq<char>) -> PlaceData {
        PlaceData { root: self.root, parts: self.parts.push(name) }
    }
}

/// The place of a root itself.
pub open spec fn root_data(root: Root) -> PlaceData {
    PlaceData { root, parts: Seq::empty() }
}

impl Place {
    /// The place of a root itself.
    pub fn at(root: Root) -> (place: Place)
        ensures
            place@ == root_data(root),
    {
        let place = Place { root, parts: Vec::new() };
        assert(place@.parts =~= Seq::empty());
        place
    }

    /// The place of `name` in this directory.
    pub fn join(self, name: &str) -> (place: Place)
        ensures
            place@ == self@.join(name@),
    {
        let ghost before = self@;
        let mut parts = self.parts;
        parts.push(name.to_owned());
        let place = Place { root: self.root, parts };
        assert(place@.parts =~= before.parts.push(name@));
        place
    }
}

/// The directory of the bundled runtime inside `root`.
pub open spec fn runtime_in(root: Root) -> PlaceData {
    PlaceData { root, parts: seq!["runtime"@] }
}

/// The directory of a runtime inside `root`.
pub fn runtime_at(root: Root) -> (place: Place)
    ensures
        place@ == runtime_in(root),
{
    let place = Place::at(root).join("runtime");
    assert(place@.parts =~= seq!["runtime"@]);
    place
}

/// Directory the bundled runtime is extracted to.
pub fn runtime_dir() -> (place: Place)
    ensures
        place@ == runtime_in(Root::AppData),
{
    runtime_at(Root::AppData)
}

/// The file inside a runtime that holds its DSH version.
pub open spec fn version_in(root: Root) -> PlaceData {
    runtime_in(root).join("dsh-version"@)
}

/// The file that holds the DSH version of the runtime inside `root`.
pub fn version_file(root: Root) -> (place: Place)
    ensures
        place@ == version_in(root),
{
    runtime_at(root).join("dsh-version")
}

/// The Node binary inside a runtime.
pub open spec fn node_in(platform: Platform, root: Root) -> PlaceData {
    runtime_in(root).join(crate::platform::node_bin(platform))
}

/// The Node binary of the runtime inside `root`.
pub fn node_file(platform: Platform, root: Root) -> (place: Place)
    ensures
        place@ == node_in(platform, root),
{
    runtime_at(root).join(node_bin_name(platform))
}

/// The script inside a runtime that starts DSH.
pub open spec fn script_in(root: Root) -> PlaceData {
    runtime_in(root).join("node_modules/@deepseek-ai/dsh/lib/bin.js"@)
}

/// The script that starts the DSH of the runtime inside `root`.
pub fn script_file(root: Root) -> (place: Place)
    ensures
        place@ == script_in(root),
{
    runtime_at(root).join("node_modules/@deepseek-ai/dsh/lib/bin.js")
}

/// The file inside a runtime that records the process started from it.
pub open spec fn pid_record_in(root: Root) -> PlaceData {
    runtime_in(root).join("dsh.pid"@)
}

/// The file that records the process started from the runtime inside `root`.
pub fn pid_file(root: Root) -> (place: Place)
    ensures
        place@ == pid_record_in(root),
{
    runtime_at(root).join("dsh.pid")
}

/// The log file.
pub fn log_file_path() -> (place: Place)
    ensures
        place@ == (PlaceData {
            root: Root::Home,
            parts: seq!["deepseek-work-preview"@, "deepseek-work.log"@],
        }),
{
    let place = Place::at(Root::Home).join("deepseek-work-preview").join("deepseek-work.log");
    assert(place@.parts =~= seq!["deepseek-work-preview"@, "deepseek-work.log"@]);
    place
}

/// DSH's home directory, given whether `DSH_HOME` is set and, if so, empty.
pub open spec fn dsh_home_data(variable_is_empty: Option<bool>) -> PlaceData {
    if variable_is_empty == Some(false) {
        root_data(Root::DshHome)
    } else {
        PlaceData { root: Root::Home, parts: seq![".dsh"@] }
    }
}

/// DSH's home directory: what `DSH_HOME` names unless it is unset or empty, else `~/.dsh`.
pub fn dsh_home(variable_is_empty: Option<bool>) -> (place: Place)
    ensures
        place@ == dsh_home_data(variable_is_empty),
{
    match variable_is_empty {
        Some(false) => Place::at(Root::DshHome),
        _ => {
            let place = Place::at(Root::Home).join(".dsh");
            assert(place@.parts =~= seq![".dsh"@]);
            place
        },
    }
}

/// The directory of the web profile inside DSH's home directory.
pub open spec fn web_profile_data(variable_is_empty: Option<bool>) -> PlaceData {
    dsh_home_data(variable_is_empty).join("profiles"@).join("web"@)
}

/// The directory of the web profile inside DSH's home directory.
pub fn web_profile_dir(variable_is_empty: Option<bool>) -> (place: Place)
    ensures
        place@ == web_profile_data(variable_is_empty),
{
    dsh_home(variable_is_empty).join("profiles").join("web")
}

/// A place is its root and its parts.
pub proof fn law_place_data(place: Place)
    ensures
        place@.root == place.root,
        place@.parts.len() == place.parts@.len(),
        forall|i: int|
            0 <= i < place.parts@.len() ==> #[trigger] place@.parts[i] == place.parts@[i]@,
{
}

/// What is joined to a place stands behind everything else, under the same root.
pub proof fn law_joining(place: PlaceData, name: Seq<char>)
    ensures
        place.join(name).root == place.root,
        place.join(name).parts == place.parts + seq![name],
{
    assert(place.parts.push(name) =~= place.parts + seq![name]);
}

/// A runtime is laid out the same inside every root: its directory, and in it
/// the version marker, the Node binary, the script and the record of the process.
pub proof fn law_runtime_layout(platform: Platform, root: Root)
    ensures
        root_data(root).root == root && root_data(root).parts.len() == 0,
        runtime_in(root) == (PlaceData { root, parts: seq!["runtime"@] }),
        version_in(root) == (PlaceData { root, parts: seq!["runtime"@, "dsh-version"@] }),
        script_in(root) == (PlaceData {
            root,
            parts: seq!["runtime"@, "node_modules/@deepseek-ai/dsh/lib/bin.js"@],
        }),
        pid_record_in(root) == (PlaceData { root, parts: seq!["runtime"@, "dsh.pid"@] }),
        platform == Platform::Windows ==> node_in(platform, root) == (PlaceData {
            root,
            parts: seq!["runtime"@, "node.exe"@],
        }),
        platform != Platform::Windows ==> node_in(platform, root) == (PlaceData {
            root,
            parts: seq!["runtime"@, "node"@],
        }),
{
    let dir = seq!["runtime"@];
    assert(dir.push("dsh-version"@) =~= seq!["runtime"@, "dsh-version"@]);
    assert(dir.push("dsh.pid"@) =~= seq!["runtime"@, "dsh.pid"@]);
    assert(dir.push("node.exe"@) =~= seq!["runtime"@, "node.exe"@]);
    assert(dir.push("node"@) =~= seq!["runtime"@, "node"@]);
    assert(dir.push("node_modules/@deepseek-ai/dsh/lib/bin.js"@) =~= seq![
        "runtime"@,
        "node_modules/@deepseek-ai/dsh/lib/bin.js"@,
    ]);
}

/// The parts of a runtime's files do not depend on where the runtime stands:
/// the extracted one has the layout of the bundled one.
pub proof fn law_layouts_agree(platform: Platform, bundle: Root, target: Root)
    ensures
        version_in(bundle).parts == version_in(target).parts,
        node_in(platform, bundle).parts == node_in(platform, target).parts,
        script_in(bundle).parts == script_in(target).parts,
        version_in(bundle).root == bundle,
        version_in(target).root == target,
{
}

/// The web profile stands in DSH's home directory: where `DSH_HOME` says,
/// unless it is unset or empty, else in `.dsh` of the user's home.
pub proof fn law_web_profile(variable_is_empty: Option<bool>)
    ensures
        variable_is_empty == Some(false) ==> dsh_home_data(variable_is_empty) == (PlaceData {
            root: Root::DshHome,
            parts: Seq::empty(),
        }) && web_profile_data(variable_is_empty) == (PlaceData {
            root: Root::DshHome,
            parts: seq!["profiles"@, "web"@],
        }),
        variable_is_empty != Some(false) ==> dsh_home_data(variable_is_empty) == (PlaceData {
            root: Root::Home,
            parts: seq![".dsh"@],
        }) && web_profile_data(variable_is_empty) == (PlaceData {
            root: Root::Home,
            parts: seq![".dsh"@, "profiles"@, "web"@],
        }),
{
    assert(Seq::<Seq<char>>::empty().push("profiles"@).push("web"@) =~= seq![
        "profiles"@,
        "web"@,
    ]);
    assert(seq![".dsh"@].push("profiles"@).push("web"@) =~= seq![".dsh"@, "profiles"@, "web"@]);
}

} // verus!
