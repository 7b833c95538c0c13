//! Kinds of installable assets and of game modification loaders.

use vstd::prelude::*;
use crate::text::{lemma_push_deep_view, str_eq};

verus! {

/// The resolved name and version of a package.
#[derive(Debug, PartialEq, Eq)]
pub struct PkgIdentifier {
    pub name: String,
    pub version: String,
}

impl PkgIdentifier {
    /// Create a new identifier.
    pub fn new(name: &str, version: &str) -> (r: Self)
        ensures
            r.name@ == name@,
            r.version@ == version@,
    {
        PkgIdentifier { name: name.to_owned(), version: version.to_owned() }
    }
}

/// The mathematical value of a [`PkgIdentifier`].
pub struct PkgIdentifierView {
    pub name: Seq<char>,
    pub version: Seq<char>,
}

impl View for PkgIdentifier {
    type V = PkgIdentifierView;

    open spec fn view(&self) -> PkgIdentifierView {
        PkgIdentifierView { name: self.name@, version: self.version@ }
    }
}

impl DeepView for PkgIdentifier {
    type V = PkgIdentifierView;

    open spec fn deep_view(&self) -> PkgIdentifierView {
        self@
    }
}

impl Clone for PkgIdentifier {
    fn clone(&self) -> (r: Self)
        ensures
            r == *self,
    {
        PkgIdentifier { name: self.name.clone(), version: self.version.clone() }
    }
}

/// What kind of thing an asset is.
#[derive(Debug, Clone, Copy, PartialEq, Eq, Structural)]
pub enum AssetKind {
    ResourcePack,
    Mod,
    Plugin,
    Shader,
}

impl AssetKind {
    /// The kind that `s` names.
    pub open spec fn parse(s: Seq<char>) -> Option<AssetKind> {
        if s == "resource_pack"@ {
            Some(AssetKind::ResourcePack)
        } else if s == "mod"@ {
            Some(AssetKind::Mod)
        } else if s == "plugin"@ {
            Some(AssetKind::Plugin)
        } else if s == "shader"@ {
            Some(AssetKind::Shader)
        } else {
            None
        }
    }

    /// The name of this kind.
    pub open spec fn name(self) -> Seq<char> {
        match self {
            AssetKind::ResourcePack => "resource_pack"@,
            AssetKind::Mod => "mod"@,
            AssetKind::Plugin => "plugin"@,
            AssetKind::Shader => "shader"@,
        }
    }

    /// The name of this kind in the plural, as directories are named.
    pub open spec fn plural_name(self) -> Seq<char> {
        match self {
            AssetKind::ResourcePack => "resource_packs"@,
            AssetKind::Mod => "mods"@,
            AssetKind::Plugin => "plugins"@,
            AssetKind::Shader => "shaders"@,
        }
    }

    /// Parse a kind of asset from its name.
    pub fn from_str(string: &str) -> (r: Option<Self>)
        ensures
            r == Self::parse(string@),
    {
        if str_eq(string, "resource_pack") {
            Some(Self::ResourcePack)
        } else if str_eq(string, "mod") {
            Some(Self::Mod)
        } else if str_eq(string, "plugin") {
            Some(Self::Plugin)
        } else if str_eq(string, "shader") {
            Some(Self::Shader)
        } else {
            None
        }
    }

    /// The name of this kind.
    pub fn to_string(&self) -> (r: String)
        ensures
            r@ == self.name(),
    {
        match self {
            Self::ResourcePack => "resource_pack".to_owned(),
            Self::Mod => "mod".to_owned(),
            Self::Plugin => "plugin".to_owned(),
            Self::Shader => "shader".to_owned(),
        }
    }

    /// The name of this kind in the plural.
    pub fn to_plural_string(&self) -> (r: String)
        ensures
            r@ == self.plural_name(),
    {
        match self {
            Self::ResourcePack => "resource_packs".to_owned(),
            Self::Mod => "mods".to_owned(),
            Self::Plugin => "plugins".to_owned(),
            Self::Shader => "shaders".to_owned(),
        }
    }
}

/// A file that a package installs.
#[derive(Debug)]
pub struct Asset {
    pub kind: AssetKind,
    pub name: String,
    pub id: PkgIdentifier,
}

impl Asset {
    /// An asset of a package.
    pub fn new(kind: AssetKind, name: &str, id: PkgIdentifier) -> (r: Self)
        ensures
            r.kind == kind,
            r.name@ == name@,
            r.id == id,
    {
        Self { kind, name: name.to_owned(), id }
    }

    /// The directory that holds assets of this kind, as the path components
    /// below the directory of all stored assets.
    pub fn get_dir(&self) -> (r: Vec<String>)
        ensures
            r.deep_view() == seq![self.kind.plural_name()],
    {
        let mut out: Vec<String> = Vec::new();
        out.push(self.kind.to_plural_string());
        assert(out.deep_view() =~= seq![self.kind.plural_name()]);
        out
    }

    /// Where this asset is stored, as the path components below the
    /// directory of all stored assets: the directory of its kind, the name
    /// and the version of its package, and its own name.
    pub fn get_path(&self) -> (r: Vec<String>)
        ensures
            r.deep_view() == seq![
                self.kind.plural_name(),
                self.id.name@,
                self.id.version@,
                self.name@,
            ],
    {
        let mut out = self.get_dir();
        let ghost dir = out;
        out.push(self.id.name.clone());
        let ghost named = out;
        out.push(self.id.version.clone());
        let ghost versioned = out;
        out.push(self.name.clone());
        proof {
            lemma_push_deep_view(dir, named, self.id.name);
            lemma_push_deep_view(named, versioned, self.id.version);
            lemma_push_deep_view(versioned, out, self.name);
        }
        assert(out.deep_view() =~= seq![
            self.kind.plural_name(),
            self.id.name@,
            self.id.version@,
            self.name@,
        ]);
        out
    }
}

impl Clone for Asset {
    fn clone(&self) -> (r: Self)
        ensures
            r == *self,
    {
        Asset { kind: self.kind, name: self.name.clone(), id: self.id.clone() }
    }
}

/// An asset together with where to fetch it from.
#[derive(Debug)]
pub struct AssetDownload {
    pub asset: Asset,
    /// The address that the asset is fetched from.
    pub url: String,
    /// Whether the asset is fetched even where a stored copy exists.
    pub force: bool,
}

impl AssetDownload {
    /// A download of an asset from an address.
    pub fn new(asset: Asset, url: &str, force: bool) -> (r: Self)
        ensures
            r.asset == asset,
            r.url@ == url@,
            r.force == force,
    {
        Self { asset, url: url.to_owned(), force }
    }

    /// Whether the asset has to be fetched, given whether a stored copy
    /// exists: always when forced, else only when there is none.
    pub fn should_download(&self, exists: bool) -> (r: bool)
        ensures
            r == (self.force || !exists),
    {
        self.force || !exists
    }
}

/// A loader of game modifications on the client or the server.
#[derive(Debug, Clone, Copy, PartialEq, Eq, Structural)]
pub enum Modloader {
    Vanilla,
    Forge,
    Fabric,
    Quilt,
}

impl Modloader {
    /// The loader that `s` names.
    pub open spec fn parse(s: Seq<char>) -> Option<Modloader> {
        if s == "vanilla"@ {
            Some(Modloader::Vanilla)
        } else if s == "forge"@ {
            Some(Modloader::Forge)
        } else if s == "fabric"@ {
            Some(Modloader::Fabric)
        } else if s == "quilt"@ {
            Some(Modloader::Quilt)
        } else {
            None
        }
    }

    /// The name that this loader is shown under.
    pub open spec fn display_name(self) -> Seq<char> {
        match self {
            Modloader::Vanilla => "None"@,
            Modloader::Forge => "Forge"@,
            Modloader::Fabric => "Fabric"@,
            Modloader::Quilt => "Quilt"@,
        }
    }

    /// Parse a modloader from its name.
    pub fn from_str(string: &str) -> (r: Option<Self>)
        ensures
            r == Self::parse(string@),
    {
        if str_eq(string, "vanilla") {
            Some(Self::Vanilla)
        } else if str_eq(string, "forge") {
            Some(Self::Forge)
        } else if str_eq(string, "fabric") {
            Some(Self::Fabric)
        } else if str_eq(string, "quilt") {
            Some(Self::Quilt)
        } else {
            None
        }
    }

    /// The name that this loader is shown under.
    pub fn to_string(&self) -> (r: String)
        ensures
            r@ == self.display_name(),
    {
        match self {
            Self::Vanilla => "None".to_owned(),
            Self::Forge => "Forge".to_owned(),
            Self::Fabric => "Fabric".to_owned(),
            Self::Quilt => "Quilt".to_owned(),
        }
    }
}

/// A pattern over modloaders, which may stand for a family of them.
#[derive(Debug, Clone, Copy, PartialEq, Eq, Structural)]
pub enum ModloaderMatch {
    Vanilla,
    Forge,
    Fabric,
    Quilt,
    /// Fabric and the loaders compatible with it.
    FabricLike,
}

impl ModloaderMatch {
    /// The pattern that `s` names.
    pub open spec fn parse(s: Seq<char>) -> Option<ModloaderMatch> {
        if s == "vanilla"@ {
            Some(ModloaderMatch::Vanilla)
        } else if s == "forge"@ {
            Some(ModloaderMatch::Forge)
        } else if s == "fabric"@ {
            Some(ModloaderMatch::Fabric)
        } else if s == "quilt"@ {
            Some(ModloaderMatch::Quilt)
        } else if s == "fabriclike"@ {
            Some(ModloaderMatch::FabricLike)
        } else {
            None
        }
    }

    /// Whether the pattern admits the loader `other`.
    pub open spec fn admits(self, other: Modloader) -> bool {
        match self {
            ModloaderMatch::Vanilla => other == Modloader::Vanilla,
            ModloaderMatch::Forge => other == Modloader::Forge,
            ModloaderMatch::Fabric => other == Modloader::Fabric,
            ModloaderMatch::Quilt => other == Modloader::Quilt,
            ModloaderMatch::FabricLike => other == Modloader::Fabric || other == Modloader::Quilt,
        }
    }

    /// Parse a pattern over modloaders from its name.
    pub fn from_str(string: &str) -> (r: Option<Self>)
        ensures
            r == Self::parse(string@),
    {
        if str_eq(string, "vanilla") {
            Some(Self::Vanilla)
        } else if str_eq(string, "forge") {
            Some(Self::Forge)
        } else if str_eq(string, "fabric") {
            Some(Self::Fabric)
        } else if str_eq(string, "quilt") {
            Some(Self::Quilt)
        } else if str_eq(string, "fabriclike") {
            Some(Self::FabricLike)
        } else {
            None
        }
    }

    /// Checks whether the pattern admits a modloader.
    pub fn matches(&self, other: &Modloader) -> (r: bool)
        ensures
            r == self.admits(*other),
    {
        match self {
            Self::Vanilla => matches!(other, Modloader::Vanilla),
            Self::Forge => matches!(other, Modloader::Forge),
            Self::Fabric => matches!(other, Modloader::Fabric),
            Self::Quilt => matches!(other, Modloader::Quilt),
            Self::FabricLike => matches!(other, Modloader::Fabric | Modloader::Quilt),
        }
    }
}

/// A loader of plugins on the server.
#[derive(Debug, Clone, Copy, PartialEq, Eq, Structural)]
pub enum PluginLoader {
    Vanilla,
    Paper,
}

impl PluginLoader {
    /// The loader that `s` names.
    pub open spec fn parse(s: Seq<char>) -> Option<PluginLoader> {
        if s == "vanilla"@ {
            Some(PluginLoader::Vanilla)
        } else if s == "paper"@ {
            Some(PluginLoader::Paper)
        } else {
            None
        }
    }

    /// The name that this loader is shown under.
    pub open spec fn display_name(self) -> Seq<char> {
        match self {
            PluginLoader::Vanilla => "None"@,
            PluginLoader::Paper => "Paper"@,
        }
    }

    /// Parse a plugin loader from its name.
    pub fn from_str(string: &str) -> (r: Option<Self>)
        ensures
            r == Self::parse(string@),
    {
        if str_eq(string, "vanilla") {
            Some(Self::Vanilla)
        } else if str_eq(string, "paper") {
            Some(Self::Paper)
        } else {
            None
        }
    }

    /// The name that this loader is shown under.
    pub fn to_string(&self) -> (r: String)
        ensures
            r@ == self.display_name(),
    {
        match self {
            Self::Vanilla => "None".to_owned(),
            Self::Paper => "Paper".to_owned(),
        }
    }
}

/// A pattern over plugin loaders, which may stand for a family of them.
#[derive(Debug, Clone, Copy, PartialEq, Eq, Structural)]
pub enum PluginLoaderMatch {
    Vanilla,
    /// Bukkit and the loaders compatible with it.
    BukkitLike,
}

impl PluginLoaderMatch {
    /// The pattern that `s` names.
    pub open spec fn parse(s: Seq<char>) -> Option<PluginLoaderMatch> {
        if s == "vanilla"@ {
            Some(PluginLoaderMatch::Vanilla)
        } else if s == "bukkitlike"@ {
            Some(PluginLoaderMatch::BukkitLike)
        } else {
            None
        }
    }

    /// Whether the pattern admits the loader `other`.
    pub open spec fn admits(self, other: PluginLoader) -> bool {
        match self {
            PluginLoaderMatch::Vanilla => other == PluginLoader::Vanilla,
            PluginLoaderMatch::BukkitLike => other == PluginLoader::Paper,
        }
    }

    /// Parse a pattern over plugin loaders from its name.
    pub fn from_str(string: &str) -> (r: Option<Self>)
        ensures
            r == Self::parse(string@),
    {
        if str_eq(string, "vanilla") {
            Some(Self::Vanilla)
        } else if str_eq(string, "bukkitlike") {
            Some(Self::BukkitLike)
        } else {
            None
        }
    }

    /// Checks whether the pattern admits a plugin loader.
    pub fn matches(&self, other: &PluginLoader) -> (r: bool)
        ensures
            r == self.admits(*other),
    {
        match self {
            Self::Vanilla => matches!(other, PluginLoader::Vanilla),
            Self::BukkitLike => matches!(other, PluginLoader::Paper),
        }
    }
}

/// Checks if the modloader and plugin loader are compatible with each other:
/// they are unless both modify the game.
pub fn game_modifications_compatible(modloader: &Modloader, plugin_loader: &PluginLoader) -> (r:
    bool)
    ensures
        r == (*modloader == Modloader::Vanilla || *plugin_loader == PluginLoader::Vanilla),
{
    match (modloader, plugin_loader) {
        (Modloader::Vanilla, _) => true,
        (_, PluginLoader::Vanilla) => true,
        _ => false,
    }
}

} // verus!
