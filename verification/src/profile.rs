//! Profiles: a version of the game with its modifications, instances and
//! packages.

use vstd::prelude::*;
use crate::asset::{Modloader, PluginLoader};
use crate::instance::Side;
use crate::package::PkgProfileConfig;
use crate::text::lemma_push_deep_view;
use crate::versions::{contains, MinecraftVersion};

verus! {

/// A profile.
#[derive(Debug)]
pub struct Profile {
    pub name: String,
    pub version: MinecraftVersion,
    /// The identifiers of the instances of the profile.
    pub instances: Vec<String>,
    pub packages: Vec<PkgProfileConfig>,
    pub modloader: Modloader,
    pub plugin_loader: PluginLoader,
}

impl Profile {
    /// A profile without instances and packages.
    pub fn new(
        name: &str,
        version: MinecraftVersion,
        modloader: Modloader,
        plugin_loader: PluginLoader,
    ) -> (r: Self)
        ensures
            r.name@ == name@,
            r.version == version,
            r.instances.deep_view() == Seq::<Seq<char>>::empty(),
            r.packages@.len() == 0,
            r.modloader == modloader,
            r.plugin_loader == plugin_loader,
    {
        let r = Profile {
            name: name.to_owned(),
            version,
            instances: Vec::new(),
            packages: Vec::new(),
            modloader,
            plugin_loader,
        };
        assert(r.instances.deep_view() =~= Seq::empty());
        r
    }

    /// Adds the instance with the given identifier to the profile.
    pub fn add_instance(&mut self, instance: &str)
        ensures
            final(self).instances.deep_view() == old(self).instances.deep_view().push(instance@),
            final(self).name == old(self).name,
            final(self).version == old(self).version,
            final(self).packages == old(self).packages,
            final(self).modloader == old(self).modloader,
            final(self).plugin_loader == old(self).plugin_loader,
    {
        let ghost before = self.instances;
        let owned = instance.to_owned();
        self.instances.push(owned);
        proof {
            lemma_push_deep_view(before, self.instances, owned);
        }
    }
}

/// Settings for updating.
#[derive(Debug, Clone, Copy, PartialEq, Eq, Structural)]
pub struct UpdateSettings {
    /// Whether to force file updates.
    pub force: bool,
    /// Whether we will prioritize local files instead of remote ones.
    pub allow_offline: bool,
}

/// Struct returned by updating functions, with data like changed files.
#[derive(Debug)]
pub struct UpdateMethodResult {
    /// The files that this function has updated, each one once.
    pub files_updated: Vec<String>,
}

impl View for UpdateMethodResult {
    type V = Set<Seq<char>>;

    open spec fn view(&self) -> Set<Seq<char>> {
        self.files_updated.deep_view().to_set()
    }
}

impl UpdateMethodResult {
    /// Whether no file is held twice.
    pub open spec fn well_formed(&self) -> bool {
        self.files_updated.deep_view().no_duplicates()
    }

    /// Create a new UpdateMethodResult.
    pub fn new() -> (r: Self)
        ensures
            r.well_formed(),
            r@ == Set::<Seq<char>>::empty(),
    {
        let r = UpdateMethodResult { files_updated: Vec::new() };
        assert(r.files_updated.deep_view() =~= Seq::empty());
        assert(r@ =~= Set::empty());
        r
    }

    /// Adds a file, unless it is held already.
    pub fn insert(&mut self, path: String)
        requires
            old(self).well_formed(),
        ensures
            final(self).well_formed(),
            final(self)@ == old(self)@.insert(path@),
    {
        if !contains(&self.files_updated, path.as_str()) {
            let ghost before = self.files_updated;
            self.files_updated.push(path);
            proof {
                lemma_push_deep_view(before, self.files_updated, path);
                let old_view = before.deep_view();
                let new_view = self.files_updated.deep_view();
                assert forall|i: int, j: int|
                    0 <= i < new_view.len() && 0 <= j < new_view.len() && i != j implies new_view[i]
                    != new_view[j] by {
                    if i < old_view.len() && j < old_view.len() {
                        assert(old_view[i] != old_view[j]);
                    } else if i < old_view.len() {
                        assert(old_view.contains(old_view[i]));
                    } else {
                        assert(old_view.contains(old_view[j]));
                    }
                }
                assert(new_view.to_set() =~= old_view.to_set().insert(path@)) by {
                    assert forall|x: Seq<char>| new_view.to_set().contains(x) implies old_view.to_set().insert(
                        path@,
                    ).contains(x) by {
                        let k = choose|k: int| 0 <= k < new_view.len() && new_view[k] == x;
                        if k < old_view.len() {
                            assert(old_view[k] == x);
                            assert(old_view.contains(x));
                        }
                    }
                    assert forall|x: Seq<char>|
                        old_view.to_set().insert(path@).contains(
                            x,
                        ) implies new_view.to_set().contains(x) by {
                        if x == path@ {
                            assert(new_view[old_view.len() as int] == x);
                        } else {
                            let k = choose|k: int| 0 <= k < old_view.len() && old_view[k] == x;
                            assert(new_view[k] == x);
                        }
                    }
                }
            }
        } else {
            assert(self@ =~= old(self)@.insert(path@));
        }
    }

    /// Create a new UpdateMethodResult from one path.
    pub fn from_path(path: String) -> (r: Self)
        ensures
            r.well_formed(),
            r@ == Set::<Seq<char>>::empty().insert(path@),
    {
        let mut out = Self::new();
        out.insert(path);
        out
    }

    /// Merges this result with another one.
    pub fn merge(&mut self, other: Self)
        requires
            old(self).well_formed(),
        ensures
            final(self).well_formed(),
            final(self)@ == old(self)@.union(other@),
    {
        let ghost start = self@;
        let ghost all = other.files_updated.deep_view();
        let mut i: usize = 0;
        assert(all.take(0).to_set() =~= Set::empty());
        assert(start.union(Set::empty()) =~= start);
        while i < other.files_updated.len()
            invariant
                i <= other.files_updated.len(),
                all == other.files_updated.deep_view(),
                self.well_formed(),
                self@ == start.union(all.take(i as int).to_set()),
            decreases other.files_updated.len() - i,
        {
            let path = other.files_updated[i].clone();
            proof {
                assert(all[i as int] == path@);
                assert(all.take(i + 1) =~= all.take(i as int).push(path@));
                assert(all.take(i + 1).to_set() =~= all.take(i as int).to_set().insert(path@)) by {
                    let shorter = all.take(i as int);
                    let longer = all.take(i + 1);
                    assert forall|x: Seq<char>| longer.to_set().contains(x) implies shorter.to_set().insert(
                        path@,
                    ).contains(x) by {
                        let k = choose|k: int| 0 <= k < longer.len() && longer[k] == x;
                        if k < shorter.len() {
                            assert(shorter[k] == x);
                            assert(shorter.contains(x));
                        }
                    }
                    assert forall|x: Seq<char>|
                        shorter.to_set().insert(path@).contains(
                            x,
                        ) implies longer.to_set().contains(x) by {
                        if x == path@ {
                            assert(longer[shorter.len() as int] == x);
                        } else {
                            let k = choose|k: int| 0 <= k < shorter.len() && shorter[k] == x;
                            assert(longer[k] == x);
                        }
                    }
                }
                assert(start.union(all.take(i as int).to_set()).insert(path@) =~= start.union(
                    all.take(i + 1).to_set(),
                ));
            }
            self.insert(path);
            i += 1;
        }
        assert(all.take(other.files_updated.len() as int) =~= all);
    }

    /// Whether a file has to be updated: always when updates are forced,
    /// else only when no update has touched the file yet.
    pub fn should_update_file(&self, settings: &UpdateSettings, file: &str) -> (r: bool)
        ensures
            r == (settings.force || !self.files_updated.deep_view().contains(file@)),
    {
        settings.force || !contains(&self.files_updated, file)
    }
}

/// The name of the file that the game jar of a side is stored under.
pub open spec fn game_jar_name(side: Side, version: Seq<char>) -> Seq<char> {
    version + "_"@ + side.name() + ".jar"@
}

/// Gets the name of a stored game jar file, under the directory of the
/// jars.
pub fn game_jar_path(side: Side, version: &str) -> (r: String)
    ensures
        r@ == game_jar_name(side, version@),
{
    let mut out = version.to_owned();
    out.append("_");
    out.append(side.to_string().as_str());
    out.append(".jar");
    out
}

/// Make an ordered list of versions from the identifiers of the entries of
/// the manifest, which lists the newest version first: the oldest version
/// comes first.
pub fn make_version_list(ids: &Vec<String>) -> (r: Vec<String>)
    ensures
        r.deep_view() == ids.deep_view().reverse(),
{
    let mut out: Vec<String> = Vec::new();
    let ghost all = ids.deep_view();
    let mut i = ids.len();
    while i > 0
        invariant
            i <= ids.len(),
            all == ids.deep_view(),
            out.len() == ids.len() - i,
            forall|j: int| 0 <= j < out.len() ==> #[trigger] out.deep_view()[j] == all[all.len() - 1 - j],
        decreases i,
    {
        i -= 1;
        let ghost before = out;
        let item = ids[i].clone();
        out.push(item);
        proof {
            lemma_push_deep_view(before, out, item);
            assert(all[i as int] == item@);
            assert forall|j: int| 0 <= j < out.len() implies #[trigger] out.deep_view()[j] == all[all.len()
                - 1 - j] by {
                if j < before.len() {
                    assert(out.deep_view()[j] == before.deep_view()[j]);
                }
            }
        }
    }
    assert(out.deep_view() =~= all.reverse());
    out
}

/// What a play time is shown as: minutes below an hour, hours below sixty
/// hours, days from then on.
pub open spec fn time_text(time: u64) -> Seq<char> {
    if time < 60 {
        crate::text::nat_text(time as nat) + " minutes"@
    } else if time < 3600 {
        crate::text::nat_text((time / 60) as nat) + " hours"@
    } else {
        crate::text::nat_text((time / 3600) as nat) + " days"@
    }
}

/// Formats a play time, which is counted in minutes.
pub fn format_time(time: u64) -> (r: String)
    ensures
        r@ == time_text(time),
{
    let mut out = String::new();
    if time < 60 {
        crate::text::push_nat(&mut out, time);
        out.append(" minutes");
    } else if time < 3600 {
        crate::text::push_nat(&mut out, time / 60);
        out.append(" hours");
    } else {
        crate::text::push_nat(&mut out, time / 3600);
        out.append(" days");
    }
    assert(out@ =~= time_text(time));
    out
}

/// What is wrong with the content of a configuration.
#[derive(Debug, PartialEq, Eq)]
pub enum ContentError {
    /// A user of an unknown type: the type and the user.
    UserType(String, String),
    /// An instance of an unknown type: the type and the instance.
    InstType(String, String),
    /// A package of an unknown type: the type and the package.
    PkgType(String, String),
    DefaultUserNotFound(String),
    DuplicateInstance(String),
    LocalPackageVersion(String),
    /// A local package without a path.
    LocalPackagePath(String),
}

impl ContentError {
    /// The message of the error.
    pub open spec fn message(self) -> Seq<char> {
        match self {
            ContentError::UserType(kind, user) => "Unknown type "@ + kind@ + " for user "@ + user@,
            ContentError::InstType(kind, instance) => "Unknown type "@ + kind@ + " for instance "@
                + instance@,
            ContentError::PkgType(kind, package) => "Unknown type "@ + kind@ + " for package "@
                + package@,
            ContentError::DefaultUserNotFound(user) => "Unknown default user '"@ + user@ + "'"@,
            ContentError::DuplicateInstance(instance) => "Duplicate instance '"@ + instance@ + "'"@,
            ContentError::LocalPackageVersion(package) => "Package '"@ + package@
                + "': Local packages must specify their exact version without special patterns"@,
            ContentError::LocalPackagePath(package) => "Package '"@ + package@
                + "': Local packages must specify their path"@,
        }
    }

    /// The message of the error.
    pub fn to_string(&self) -> (r: String)
        ensures
            r@ == self.message(),
    {
        let mut out = String::new();
        match self {
            ContentError::UserType(kind, user) => {
                out.append("Unknown type ");
                out.append(kind.as_str());
                out.append(" for user ");
                out.append(user.as_str());
            },
            ContentError::InstType(kind, instance) => {
                out.append("Unknown type ");
                out.append(kind.as_str());
                out.append(" for instance ");
                out.append(instance.as_str());
            },
            ContentError::PkgType(kind, package) => {
                out.append("Unknown type ");
                out.append(kind.as_str());
                out.append(" for package ");
                out.append(package.as_str());
            },
            ContentError::DefaultUserNotFound(user) => {
                out.append("Unknown default user '");
                out.append(user.as_str());
                out.append("'");
            },
            ContentError::DuplicateInstance(instance) => {
                out.append("Duplicate instance '");
                out.append(instance.as_str());
                out.append("'");
            },
            ContentError::LocalPackageVersion(package) => {
                out.append("Package '");
                out.append(package.as_str());
                out.append(
                    "': Local packages must specify their exact version without special patterns",
                );
            },
            ContentError::LocalPackagePath(package) => {
                out.append("Package '");
                out.append(package.as_str());
                out.append("': Local packages must specify their path");
            },
        }
        assert(out@ =~= self.message());
        out
    }
}

/// Result from the Microsoft authentication.
#[derive(Debug, PartialEq, Eq)]
pub struct MicrosoftAuthResult {
    pub access_token: String,
    /// The name of the profile of the player.
    pub profile: String,
    pub xbox_uid: String,
}

/// The name of the file that holds the options, under the directory of the
/// configuration.
pub fn get_path() -> (r: &'static str)
    ensures
        r@ == "options.json"@,
{
    "options.json"
}

} // verus!
