//! The two sides that the game is installed on, and the instances that are
//! installed on them.

use vstd::prelude::*;
use crate::asset::{AssetKind, Modloader};
use crate::java::JavaKind;
use crate::modifications::GameModifications;
use crate::text::{lemma_push_deep_view, str_eq};

verus! {

/// Client or server: the deployment target of an instance.
#[derive(Debug, Clone, Copy, PartialEq, Eq, Structural)]
pub enum Side {
    Client,
    Server,
}

impl Side {
    /// The side that `s` names.
    pub open spec fn parse(s: Seq<char>) -> Option<Side> {
        if s == "client"@ {
            Some(Side::Client)
        } else if s == "server"@ {
            Some(Side::Server)
        } else {
            None
        }
    }

    /// The name of this side.
    pub open spec fn name(self) -> Seq<char> {
        match self {
            Side::Client => "client"@,
            Side::Server => "server"@,
        }
    }

    /// Parse a side from its name.
    pub fn parse_from_str(string: &str) -> (r: Option<Self>)
        ensures
            r == Self::parse(string@),
    {
        if str_eq(string, "client") {
            Some(Self::Client)
        } else if str_eq(string, "server") {
            Some(Self::Server)
        } else {
            None
        }
    }

    /// The name of this side.
    pub fn to_string(&self) -> (r: String)
        ensures
            r@ == self.name(),
    {
        match self {
            Self::Client => "client".to_owned(),
            Self::Server => "server".to_owned(),
        }
    }
}

/// What kind of installation an instance is.
#[derive(Debug, Clone, Copy, PartialEq, Eq, Structural)]
pub enum InstKind {
    Client,
    Server,
}

impl InstKind {
    /// The side that the kind of instance is installed on.
    pub open spec fn side(self) -> Side {
        match self {
            InstKind::Client => Side::Client,
            InstKind::Server => Side::Server,
        }
    }

    /// The name of the directory that holds the game of an instance of
    /// this kind.
    pub open spec fn game_dir(self) -> Seq<char> {
        match self {
            InstKind::Client => ".minecraft"@,
            InstKind::Server => "server"@,
        }
    }

    /// Convert to the Side enum.
    pub fn to_side(&self) -> (r: Side)
        ensures
            r == self.side(),
    {
        match self {
            Self::Client => Side::Client,
            Self::Server => Side::Server,
        }
    }
}

/// The directory of an instance, as the path components below the data
/// directory: the name of its side and its identifier.
pub fn get_dir(kind: InstKind, id: &str) -> (r: Vec<String>)
    ensures
        r.deep_view() == seq![kind.side().name(), id@],
{
    let mut out: Vec<String> = Vec::new();
    out.push(kind.to_side().to_string());
    out.push(id.to_owned());
    assert(out.deep_view() =~= seq![kind.side().name(), id@]);
    out
}

/// The directory that holds the game of an instance, as the path
/// components below the data directory.
pub fn get_subdir(kind: InstKind, id: &str) -> (r: Vec<String>)
    ensures
        r.deep_view() == seq![kind.side().name(), id@, kind.game_dir()],
{
    let mut out = get_dir(kind, id);
    let ghost before = out;
    let dir = match kind {
        InstKind::Client => ".minecraft".to_owned(),
        InstKind::Server => "server".to_owned(),
    };
    out.push(dir);
    proof {
        lemma_push_deep_view(before, out, dir);
    }
    assert(out.deep_view() =~= seq![kind.side().name(), id@, kind.game_dir()]);
    out
}

/// The directory of an instance that addons of a kind are linked into, or
/// nothing where an instance of this kind takes no such addons: resource
/// packs and shaders go to clients only, plugins to servers only.
pub open spec fn linked_addon_dir(kind: InstKind, addon: AssetKind) -> Option<Seq<char>> {
    match addon {
        AssetKind::ResourcePack => if kind == InstKind::Client {
            Some("resourcepacks"@)
        } else {
            None
        },
        AssetKind::Mod => Some("mods"@),
        AssetKind::Plugin => if kind == InstKind::Server {
            Some("plugins"@)
        } else {
            None
        },
        AssetKind::Shader => if kind == InstKind::Client {
            Some("shaders"@)
        } else {
            None
        },
    }
}

/// The name of the directory, below the game directory of an instance, that
/// addons of a kind are linked into.
pub fn get_linked_addon_path(kind: InstKind, addon: AssetKind) -> (r: Option<&'static str>)
    ensures
        match r {
            Some(dir) => linked_addon_dir(kind, addon) == Some(dir@),
            None => linked_addon_dir(kind, addon) is None,
        },
{
    match addon {
        AssetKind::ResourcePack => {
            if let InstKind::Client = kind {
                Some("resourcepacks")
            } else {
                None
            }
        },
        AssetKind::Mod => Some("mods"),
        AssetKind::Plugin => {
            if let InstKind::Server = kind {
                Some("plugins")
            } else {
                None
            }
        },
        AssetKind::Shader => {
            if let InstKind::Client = kind {
                Some("shaders")
            } else {
                None
            }
        },
    }
}

/// Which of the two loaders that share their installation is installed.
#[derive(Debug, Clone, Copy, PartialEq, Eq, Structural)]
pub enum FabricQuiltMode {
    Fabric,
    Quilt,
}

/// Requirements for operations that may be shared by multiple instances in a
/// profile.
#[derive(Debug, PartialEq, Eq)]
pub enum UpdateRequirement {
    /// The description of the version of the game.
    ClientJson,
    /// A Java installation.
    Java(JavaKind),
    /// The game jar of a side.
    GameJar(Side),
    /// Fabric or Quilt on a side.
    FabricQuilt(FabricQuiltMode, Side),
    /// Game options.
    Options,
    /// The assets of the game.
    GameAssets,
    /// The libraries of the game.
    GameLibraries,
}

/// The loader to install for a modloader, where it is Fabric or Quilt.
pub open spec fn fabric_quilt_mode(modloader: Modloader) -> Option<FabricQuiltMode> {
    match modloader {
        Modloader::Fabric => Some(FabricQuiltMode::Fabric),
        Modloader::Quilt => Some(FabricQuiltMode::Quilt),
        _ => None,
    }
}

/// The requirements of an instance, in the order in which they are
/// fulfilled: the description of the version, Java, the game jar, Fabric or
/// Quilt where the side runs one of them, the options, and for a client the
/// assets and libraries of the game.
pub open spec fn requirements(
    kind: InstKind,
    modifications: GameModifications,
    java: JavaKind,
) -> Seq<UpdateRequirement> {
    let side = kind.side();
    let first = seq![
        UpdateRequirement::ClientJson,
        UpdateRequirement::Java(java),
        UpdateRequirement::GameJar(side),
    ];
    let loader = match fabric_quilt_mode(modifications.modloader_of(side)) {
        Some(mode) => seq![UpdateRequirement::FabricQuilt(mode, side)],
        None => Seq::empty(),
    };
    let game = match kind {
        InstKind::Client => seq![UpdateRequirement::GameAssets, UpdateRequirement::GameLibraries],
        InstKind::Server => Seq::empty(),
    };
    first + loader + seq![UpdateRequirement::Options] + game
}

/// Get the requirements for an instance.
pub fn get_requirements(kind: InstKind, modifications: &GameModifications, java: JavaKind) -> (r:
    Vec<UpdateRequirement>)
    ensures
        r@ == requirements(kind, *modifications, java),
{
    let mut out: Vec<UpdateRequirement> = Vec::new();
    out.push(UpdateRequirement::ClientJson);
    out.push(UpdateRequirement::Java(java));
    out.push(UpdateRequirement::GameJar(kind.to_side()));
    match modifications.get_modloader(kind.to_side()) {
        Modloader::Fabric => {
            out.push(UpdateRequirement::FabricQuilt(FabricQuiltMode::Fabric, kind.to_side()));
        },
        Modloader::Quilt => {
            out.push(UpdateRequirement::FabricQuilt(FabricQuiltMode::Quilt, kind.to_side()));
        },
        _ => {},
    }
    out.push(UpdateRequirement::Options);
    match kind {
        InstKind::Client => {
            out.push(UpdateRequirement::GameAssets);
            out.push(UpdateRequirement::GameLibraries);
        },
        InstKind::Server => {},
    }
    assert(out@ =~= requirements(kind, *modifications, java));
    out
}

/// A rule of a library of the game: whether to allow or to disallow the
/// library, and on which operating system where the rule names one.
#[derive(Debug, PartialEq, Eq)]
pub struct LibraryRule {
    pub action: String,
    pub os_name: Option<String>,
}

/// The mathematical value of a [`LibraryRule`].
pub struct LibraryRuleView {
    pub action: Seq<char>,
    pub os_name: Option<Seq<char>>,
}

impl View for LibraryRule {
    type V = LibraryRuleView;

    open spec fn view(&self) -> LibraryRuleView {
        LibraryRuleView { action: self.action@, os_name: self.os_name.deep_view() }
    }
}

impl DeepView for LibraryRule {
    type V = LibraryRuleView;

    open spec fn deep_view(&self) -> LibraryRuleView {
        self@
    }
}

impl LibraryRuleView {
    /// Whether the rule speaks against the library on an operating system:
    /// it names a system and allows the library on another system, or
    /// disallows it on this one.
    pub open spec fn forbids(self, os: Seq<char>) -> bool {
        match self.os_name {
            Some(name) => (self.action == "allow"@) != (name == os),
            None => false,
        }
    }
}

/// Whether a library with these rules is installed on an operating system:
/// no rule speaks against it.
pub open spec fn library_allowed(rules: Seq<LibraryRuleView>, os: Seq<char>) -> bool {
    forall|i: int| 0 <= i < rules.len() ==> !(#[trigger] rules[i]).forbids(os)
}

/// Checks the rules of a game library to see if it should be installed.
pub fn is_library_allowed(rules: &Vec<LibraryRule>, os: &str) -> (r: bool)
    ensures
        r == library_allowed(rules.deep_view(), os@),
{
    let mut i: usize = 0;
    while i < rules.len()
        invariant
            i <= rules.len(),
            forall|j: int| 0 <= j < i ==> !(#[trigger] rules.deep_view()[j]).forbids(os@),
        decreases rules.len() - i,
    {
        assert(rules.deep_view()[i as int] == rules[i as int]@);
        if let Some(name) = &rules[i].os_name {
            let allowed = str_eq(rules[i].action.as_str(), "allow");
            if allowed != str_eq(name.as_str(), os) {
                return false;
            }
        }
        i += 1;
    }
    true
}

/// The indices of the libraries that are installed on an operating system,
/// in their order.
pub open spec fn allowed_libraries(libraries: Seq<Seq<LibraryRuleView>>, os: Seq<char>) -> Seq<
    usize,
>
    decreases libraries.len(),
{
    if libraries.len() == 0 {
        Seq::empty()
    } else {
        let front = allowed_libraries(libraries.drop_last(), os);
        if library_allowed(libraries.last(), os) {
            front.push((libraries.len() - 1) as usize)
        } else {
            front
        }
    }
}

/// Gets the list of allowed libraries, as their indices among the libraries
/// of the version, each of which is given by its rules.
pub fn get_lib_list(libraries: &Vec<Vec<LibraryRule>>, os: &str) -> (r: Vec<usize>)
    ensures
        r@ == allowed_libraries(libraries.deep_view(), os@),
{
    let ghost all = libraries.deep_view();
    let mut out: Vec<usize> = Vec::new();
    let mut i: usize = 0;
    assert(all.take(0) =~= Seq::empty());
    while i < libraries.len()
        invariant
            i <= libraries.len(),
            all == libraries.deep_view(),
            out@ == allowed_libraries(all.take(i as int), os@),
        decreases libraries.len() - i,
    {
        proof {
            assert(all.take(i + 1).drop_last() =~= all.take(i as int));
            assert(all.take(i + 1).last() == libraries[i as int].deep_view());
        }
        if is_library_allowed(&libraries[i], os) {
            out.push(i);
        }
        i += 1;
    }
    assert(all.take(libraries.len() as int) =~= all);
    out
}

} // verus!
