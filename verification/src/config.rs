//! The configuration of users, profiles, instances and packages.
//!
//! A configuration is read from a document whose values are taken as they
//! are written. Loading checks the content of the document: the types of
//! users, instances and packages have to be known, the default user has to
//! exist, no two instances may share an identifier, and a local package
//! has to state its exact version.

use vstd::prelude::*;
use crate::asset::{Modloader, PkgIdentifier, PkgIdentifierView, PluginLoader};
use crate::eval::EvalPermissions;
use crate::instance::InstKind;
use crate::package::{PkgProfileConfig, PkgProfileConfigView, PkgRequest};
use crate::pkg::PackageStability;
use crate::profile::ContentError;
use crate::text::{clone_optional, clone_strings, lemma_push_deep_view, str_eq};
use crate::versions::{MinecraftVersion, VersionPattern, VersionPatternView};

verus! {

/// The mathematical value of a [`ContentError`].
pub enum ContentErrorView {
    UserType(Seq<char>, Seq<char>),
    InstType(Seq<char>, Seq<char>),
    PkgType(Seq<char>, Seq<char>),
    DefaultUserNotFound(Seq<char>),
    DuplicateInstance(Seq<char>),
    LocalPackageVersion(Seq<char>),
    LocalPackagePath(Seq<char>),
}

impl View for ContentError {
    type V = ContentErrorView;

    open spec fn view(&self) -> ContentErrorView {
        match *self {
            ContentError::UserType(kind, user) => ContentErrorView::UserType(kind@, user@),
            ContentError::InstType(kind, instance) => ContentErrorView::InstType(kind@, instance@),
            ContentError::PkgType(kind, package) => ContentErrorView::PkgType(kind@, package@),
            ContentError::DefaultUserNotFound(user) => ContentErrorView::DefaultUserNotFound(user@),
            ContentError::DuplicateInstance(instance) => ContentErrorView::DuplicateInstance(
                instance@,
            ),
            ContentError::LocalPackageVersion(package) => ContentErrorView::LocalPackageVersion(
                package@,
            ),
            ContentError::LocalPackagePath(package) => ContentErrorView::LocalPackagePath(package@),
        }
    }
}

/// How a user signs in.
#[derive(Debug, Clone, Copy, PartialEq, Eq, Structural)]
pub enum UserKind {
    Microsoft,
    Demo,
}

impl UserKind {
    /// The kind of user that `s` names.
    pub open spec fn parse(s: Seq<char>) -> Option<UserKind> {
        if s == "microsoft"@ {
            Some(UserKind::Microsoft)
        } else if s == "demo"@ {
            Some(UserKind::Demo)
        } else {
            None
        }
    }

    /// Parse a kind of user from its name.
    pub fn from_str(string: &str) -> (r: Option<Self>)
        ensures
            r == Self::parse(string@),
    {
        if str_eq(string, "microsoft") {
            Some(Self::Microsoft)
        } else if str_eq(string, "demo") {
            Some(Self::Demo)
        } else {
            None
        }
    }
}

/// A user as the document writes it.
#[derive(Debug, PartialEq, Eq)]
pub struct UserDocument {
    pub id: String,
    pub kind: String,
    pub name: String,
    pub uuid: Option<String>,
}

/// A user.
#[derive(Debug, PartialEq, Eq)]
pub struct User {
    pub kind: UserKind,
    pub id: String,
    pub name: String,
    pub uuid: Option<String>,
}

/// The mathematical value of a [`User`].
pub struct UserView {
    pub kind: UserKind,
    pub id: Seq<char>,
    pub name: Seq<char>,
    pub uuid: Option<Seq<char>>,
}

impl View for User {
    type V = UserView;

    open spec fn view(&self) -> UserView {
        UserView { kind: self.kind, id: self.id@, name: self.name@, uuid: self.uuid.deep_view() }
    }
}

impl DeepView for User {
    type V = UserView;

    open spec fn deep_view(&self) -> UserView {
        self@
    }
}

/// An instance as the document writes it.
#[derive(Debug, PartialEq, Eq)]
pub struct InstanceDocument {
    pub id: String,
    pub kind: String,
}

/// An instance of a profile.
#[derive(Debug, PartialEq, Eq)]
pub struct ConfiguredInstance {
    pub id: String,
    pub kind: InstKind,
    /// The version of the game of the profile.
    pub version: String,
}

/// The mathematical value of a [`ConfiguredInstance`].
pub struct ConfiguredInstanceView {
    pub id: Seq<char>,
    pub kind: InstKind,
    pub version: Seq<char>,
}

impl View for ConfiguredInstance {
    type V = ConfiguredInstanceView;

    open spec fn view(&self) -> ConfiguredInstanceView {
        ConfiguredInstanceView { id: self.id@, kind: self.kind, version: self.version@ }
    }
}

impl DeepView for ConfiguredInstance {
    type V = ConfiguredInstanceView;

    open spec fn deep_view(&self) -> ConfiguredInstanceView {
        self@
    }
}

/// A package as the document writes it.
#[derive(Debug, PartialEq, Eq)]
pub struct PackageDocument {
    pub id: String,
    pub version: Option<String>,
    /// `local` for a package from a file, `remote` for one from a
    /// repository.
    pub kind: Option<String>,
    pub path: Option<String>,
    pub features: Vec<String>,
}

/// A package from a file on this machine.
#[derive(Debug, PartialEq, Eq)]
pub struct LocalPackage {
    pub id: PkgIdentifier,
    /// The profile that configures the package.
    pub profile: String,
    pub path: String,
}

/// The mathematical value of a [`LocalPackage`].
pub struct LocalPackageView {
    pub id: PkgIdentifierView,
    pub profile: Seq<char>,
    pub path: Seq<char>,
}

impl View for LocalPackage {
    type V = LocalPackageView;

    open spec fn view(&self) -> LocalPackageView {
        LocalPackageView { id: self.id@, profile: self.profile@, path: self.path@ }
    }
}

impl DeepView for LocalPackage {
    type V = LocalPackageView;

    open spec fn deep_view(&self) -> LocalPackageView {
        self@
    }
}

/// A profile as the document writes it.
#[derive(Debug, PartialEq, Eq)]
pub struct ProfileDocument {
    pub id: String,
    pub version: String,
    pub instances: Vec<InstanceDocument>,
    pub packages: Vec<PackageDocument>,
}

/// A configuration as the document writes it.
#[derive(Debug, PartialEq, Eq)]
pub struct ConfigDocument {
    pub users: Vec<UserDocument>,
    pub default_user: Option<String>,
    pub profiles: Vec<ProfileDocument>,
}

/// A profile with the packages that it configures.
#[derive(Debug)]
pub struct ConfiguredProfile {
    pub id: String,
    pub version: String,
    /// The identifiers of the instances of the profile.
    pub instances: Vec<String>,
    pub packages: Vec<PkgProfileConfig>,
}

/// The mathematical value of a [`ConfiguredProfile`].
pub struct ConfiguredProfileView {
    pub id: Seq<char>,
    pub version: Seq<char>,
    pub instances: Seq<Seq<char>>,
    pub packages: Seq<PkgProfileConfigView>,
}

impl View for ConfiguredProfile {
    type V = ConfiguredProfileView;

    open spec fn view(&self) -> ConfiguredProfileView {
        ConfiguredProfileView {
            id: self.id@,
            version: self.version@,
            instances: self.instances.deep_view(),
            packages: self.packages.deep_view(),
        }
    }
}

impl DeepView for ConfiguredProfile {
    type V = ConfiguredProfileView;

    open spec fn deep_view(&self) -> ConfiguredProfileView {
        self@
    }
}

/// A configuration whose content was checked.
#[derive(Debug)]
pub struct Config {
    pub users: Vec<User>,
    /// The user that is signed in, where one is set.
    pub default_user: Option<String>,
    /// The instances of all profiles.
    pub instances: Vec<ConfiguredInstance>,
    pub profiles: Vec<ConfiguredProfile>,
    pub local_packages: Vec<LocalPackage>,
}

/// The mathematical value of a [`Config`].
pub struct ConfigView {
    pub users: Seq<UserView>,
    pub default_user: Option<Seq<char>>,
    pub instances: Seq<ConfiguredInstanceView>,
    pub profiles: Seq<ConfiguredProfileView>,
    pub local_packages: Seq<LocalPackageView>,
}

impl View for Config {
    type V = ConfigView;

    open spec fn view(&self) -> ConfigView {
        ConfigView {
            users: self.users.deep_view(),
            default_user: self.default_user.deep_view(),
            instances: self.instances.deep_view(),
            profiles: self.profiles.deep_view(),
            local_packages: self.local_packages.deep_view(),
        }
    }
}

impl ConfigView {
    /// A configuration without users and profiles.
    pub open spec fn empty() -> ConfigView {
        ConfigView {
            users: Seq::empty(),
            default_user: None,
            instances: Seq::empty(),
            profiles: Seq::empty(),
            local_packages: Seq::empty(),
        }
    }
}

/// Whether a user with this identifier is among the users.
pub open spec fn has_user(users: Seq<UserView>, id: Seq<char>) -> bool {
    exists|i: int| 0 <= i < users.len() && (#[trigger] users[i]).id == id
}

/// Whether an instance with this identifier is among the instances.
pub open spec fn has_instance(instances: Seq<ConfiguredInstanceView>, id: Seq<char>) -> bool {
    exists|i: int| 0 <= i < instances.len() && (#[trigger] instances[i]).id == id
}

/// The user that a document writes; its type has to be known.
pub open spec fn user_of(doc: &UserDocument) -> Result<UserView, ContentErrorView> {
    match UserKind::parse(doc.kind@) {
        Some(kind) => Ok(
            UserView { kind, id: doc.id@, name: doc.name@, uuid: doc.uuid.deep_view() },
        ),
        None => Err(ContentErrorView::UserType(doc.kind@, doc.id@)),
    }
}

/// The configuration after the users from index `from` on were added.
pub open spec fn with_users(config: ConfigView, docs: Seq<UserDocument>, from: int) -> Result<
    ConfigView,
    ContentErrorView,
>
    decreases docs.len() - from,
{
    if 0 <= from < docs.len() {
        match user_of(&docs[from]) {
            Ok(user) => with_users(
                ConfigView { users: config.users.push(user), ..config },
                docs,
                from + 1,
            ),
            Err(e) => Err(e),
        }
    } else {
        Ok(config)
    }
}

/// The configuration with its default user set; the user has to exist.
pub open spec fn with_default_user(config: ConfigView, default_user: Option<Seq<char>>) -> Result<
    ConfigView,
    ContentErrorView,
> {
    match default_user {
        Some(id) => if has_user(config.users, id) {
            Ok(ConfigView { default_user: Some(id), ..config })
        } else {
            Err(ContentErrorView::DefaultUserNotFound(id))
        },
        None => Ok(config),
    }
}

/// What reading the instances of a profile gives: the instances of all
/// profiles and the identifiers of the instances of this profile.
pub struct ReadInstances {
    pub all: Seq<ConfiguredInstanceView>,
    pub ids: Seq<Seq<char>>,
}

/// The instances after the instances of a profile from index `from` on
/// were added. No instance may have the identifier of an earlier one, and
/// its type has to be known.
pub open spec fn with_instances(
    read: ReadInstances,
    docs: Seq<InstanceDocument>,
    version: Seq<char>,
    from: int,
) -> Result<ReadInstances, ContentErrorView>
    decreases docs.len() - from,
{
    if 0 <= from < docs.len() {
        let doc = docs[from];
        if has_instance(read.all, doc.id@) {
            Err(ContentErrorView::DuplicateInstance(doc.id@))
        } else {
            match instance_kind(doc.kind@) {
                Some(kind) => with_instances(
                    ReadInstances {
                        all: read.all.push(ConfiguredInstanceView { id: doc.id@, kind, version }),
                        ids: read.ids.push(doc.id@),
                    },
                    docs,
                    version,
                    from + 1,
                ),
                None => Err(ContentErrorView::InstType(doc.kind@, doc.id@)),
            }
        }
    } else {
        Ok(read)
    }
}

/// The kind of instance that `s` names.
pub open spec fn instance_kind(s: Seq<char>) -> Option<InstKind> {
    if s == "client"@ {
        Some(InstKind::Client)
    } else if s == "server"@ {
        Some(InstKind::Server)
    } else {
        None
    }
}

/// The version that a package is asked for in: the version that the
/// document states, or the latest one.
pub open spec fn package_version(version: Option<Seq<char>>) -> VersionPatternView {
    match version {
        Some(version) => VersionPatternView::Single(version),
        None => VersionPatternView::Latest,
    }
}

/// The local package that a document writes, where it writes one. A local
/// package has to state its exact version and its path. The type of a
/// package has to be known.
pub open spec fn local_package_of(doc: &PackageDocument, profile: Seq<char>) -> Result<
    Option<LocalPackageView>,
    ContentErrorView,
> {
    match doc.kind {
        None => Ok(None),
        Some(kind) => if kind@ == "local"@ {
            match (doc.version, doc.path) {
                (None, _) => Err(ContentErrorView::LocalPackageVersion(doc.id@)),
                (Some(_), None) => Err(ContentErrorView::LocalPackagePath(doc.id@)),
                (Some(version), Some(path)) => Ok(
                    Some(
                        LocalPackageView {
                            id: PkgIdentifierView { name: doc.id@, version: version@ },
                            profile,
                            path: path@,
                        },
                    ),
                ),
            }
        } else if kind@ == "remote"@ {
            Ok(None)
        } else {
            Err(ContentErrorView::PkgType(kind@, "package"@))
        },
    }
}

/// The configuration of a package that a document writes.
pub open spec fn package_config_of(doc: &PackageDocument) -> PkgProfileConfigView {
    PkgProfileConfigView {
        name: doc.id@,
        version: package_version(doc.version.deep_view()),
        features: doc.features.deep_view(),
        use_default_features: true,
        permissions: EvalPermissions::Standard,
        stability: PackageStability::Stable,
    }
}

/// What reading the packages of a profile gives: the local packages of all
/// profiles and the packages that this profile configures.
pub struct ReadPackages {
    pub local: Seq<LocalPackageView>,
    pub configured: Seq<PkgProfileConfigView>,
}

/// The packages after the packages of a profile from index `from` on were
/// added.
pub open spec fn with_packages(
    read: ReadPackages,
    docs: Seq<PackageDocument>,
    profile: Seq<char>,
    from: int,
) -> Result<ReadPackages, ContentErrorView>
    decreases docs.len() - from,
{
    if 0 <= from < docs.len() {
        match local_package_of(&docs[from], profile) {
            Err(e) => Err(e),
            Ok(local) => with_packages(
                ReadPackages {
                    local: match local {
                        Some(package) => read.local.push(package),
                        None => read.local,
                    },
                    configured: read.configured.push(package_config_of(&docs[from])),
                },
                docs,
                profile,
                from + 1,
            ),
        }
    } else {
        Ok(read)
    }
}

/// The configuration after a profile was added: first its instances, then
/// its packages.
pub open spec fn with_profile(config: ConfigView, doc: &ProfileDocument) -> Result<
    ConfigView,
    ContentErrorView,
> {
    match with_instances(
        ReadInstances { all: config.instances, ids: Seq::empty() },
        doc.instances@,
        doc.version@,
        0,
    ) {
        Err(e) => Err(e),
        Ok(instances) => match with_packages(
            ReadPackages { local: config.local_packages, configured: Seq::empty() },
            doc.packages@,
            doc.id@,
            0,
        ) {
            Err(e) => Err(e),
            Ok(packages) => Ok(
                ConfigView {
                    instances: instances.all,
                    local_packages: packages.local,
                    profiles: config.profiles.push(
                        ConfiguredProfileView {
                            id: doc.id@,
                            version: doc.version@,
                            instances: instances.ids,
                            packages: packages.configured,
                        },
                    ),
                    ..config
                },
            ),
        },
    }
}

/// The configuration after the profiles from index `from` on were added.
pub open spec fn with_profiles(config: ConfigView, docs: Seq<ProfileDocument>, from: int) -> Result<
    ConfigView,
    ContentErrorView,
>
    decreases docs.len() - from,
{
    if 0 <= from < docs.len() {
        match with_profile(config, &docs[from]) {
            Ok(next) => with_profiles(next, docs, from + 1),
            Err(e) => Err(e),
        }
    } else {
        Ok(config)
    }
}

/// The configuration that a document writes: its users, its default user
/// and its profiles, or the first fault of its content.
pub open spec fn config_of(doc: &ConfigDocument) -> Result<ConfigView, ContentErrorView> {
    match with_users(ConfigView::empty(), doc.users@, 0) {
        Err(e) => Err(e),
        Ok(users) => match with_default_user(users, doc.default_user.deep_view()) {
            Err(e) => Err(e),
            Ok(signed_in) => with_profiles(signed_in, doc.profiles@, 0),
        },
    }
}

fn has_user_exec(users: &Vec<User>, id: &str) -> (r: bool)
    ensures
        r == has_user(users.deep_view(), id@),
{
    let mut i: usize = 0;
    while i < users.len()
        invariant
            i <= users.len(),
            forall|j: int| 0 <= j < i ==> (#[trigger] users.deep_view()[j]).id != id@,
        decreases users.len() - i,
    {
        assert(users.deep_view()[i as int] == users[i as int]@);
        if str_eq(users[i].id.as_str(), id) {
            return true;
        }
        i += 1;
    }
    false
}

fn has_instance_exec(instances: &Vec<ConfiguredInstance>, id: &str) -> (r: bool)
    ensures
        r == has_instance(instances.deep_view(), id@),
{
    let mut i: usize = 0;
    while i < instances.len()
        invariant
            i <= instances.len(),
            forall|j: int| 0 <= j < i ==> (#[trigger] instances.deep_view()[j]).id != id@,
        decreases instances.len() - i,
    {
        assert(instances.deep_view()[i as int] == instances[i as int]@);
        if str_eq(instances[i].id.as_str(), id) {
            return true;
        }
        i += 1;
    }
    false
}

fn read_local_package(doc: &PackageDocument, profile: &str) -> (r: Result<
    Option<LocalPackage>,
    ContentError,
>)
    ensures
        match local_package_of(doc, profile@) {
            Ok(local) => r matches Ok(got) && got.deep_view() == local,
            Err(e) => r matches Err(err) && err@ == e,
        },
{
    match &doc.kind {
        None => Ok(None),
        Some(kind) => {
            if str_eq(kind.as_str(), "local") {
                match (&doc.version, &doc.path) {
                    (None, _) => Err(ContentError::LocalPackageVersion(doc.id.clone())),
                    (Some(_), None) => Err(ContentError::LocalPackagePath(doc.id.clone())),
                    (Some(version), Some(path)) => Ok(
                        Some(
                            LocalPackage {
                                id: PkgIdentifier {
                                    name: doc.id.clone(),
                                    version: version.clone(),
                                },
                                profile: profile.to_owned(),
                                path: path.clone(),
                            },
                        ),
                    ),
                }
            } else if str_eq(kind.as_str(), "remote") {
                Ok(None)
            } else {
                Err(ContentError::PkgType(kind.clone(), "package".to_owned()))
            }
        },
    }
}

fn read_package_config(doc: &PackageDocument) -> (r: PkgProfileConfig)
    ensures
        r@ == package_config_of(doc),
{
    let version = match &doc.version {
        Some(version) => VersionPattern::Single(version.clone()),
        None => VersionPattern::Latest,
    };
    PkgProfileConfig {
        req: PkgRequest { name: doc.id.clone(), version },
        features: clone_strings(&doc.features),
        use_default_features: true,
        permissions: EvalPermissions::Standard,
        stability: PackageStability::Stable,
    }
}

impl Config {
    /// Whether a user with this identifier is configured.
    pub fn has_user(&self, id: &str) -> (r: bool)
        ensures
            r == has_user(self@.users, id@),
    {
        has_user_exec(&self.users, id)
    }

    /// A configuration without users and profiles.
    pub fn new() -> (r: Self)
        ensures
            r@ == ConfigView::empty(),
    {
        let r = Config {
            users: Vec::new(),
            default_user: None,
            instances: Vec::new(),
            profiles: Vec::new(),
            local_packages: Vec::new(),
        };
        proof {
            assert(r.users.deep_view() =~= Seq::empty());
            assert(r.instances.deep_view() =~= Seq::empty());
            assert(r.profiles.deep_view() =~= Seq::empty());
            assert(r.local_packages.deep_view() =~= Seq::empty());
        }
        r
    }

    fn add_users(&mut self, docs: &Vec<UserDocument>) -> (r: Result<(), ContentError>)
        ensures
            match with_users(old(self)@, docs@, 0) {
                Ok(config) => r is Ok && final(self)@ == config,
                Err(e) => r matches Err(err) && err@ == e,
            },
    {
        let mut i: usize = 0;
        while i < docs.len()
            invariant
                i <= docs.len(),
                with_users(old(self)@, docs@, 0) == with_users(self@, docs@, i as int),
            decreases docs.len() - i,
        {
            let doc = &docs[i];
            let kind = match UserKind::from_str(doc.kind.as_str()) {
                Some(kind) => kind,
                None => {
                    return Err(ContentError::UserType(doc.kind.clone(), doc.id.clone()));
                },
            };
            let user = User {
                kind,
                id: doc.id.clone(),
                name: doc.name.clone(),
                uuid: clone_optional(&doc.uuid),
            };
            let ghost before = self.users;
            self.users.push(user);
            proof {
                lemma_push_deep_view(before, self.users, user);
            }
            i += 1;
        }
        Ok(())
    }

    fn set_default_user(&mut self, default_user: &Option<String>) -> (r: Result<(), ContentError>)
        ensures
            match with_default_user(old(self)@, default_user.deep_view()) {
                Ok(config) => r is Ok && final(self)@ == config,
                Err(e) => r matches Err(err) && err@ == e,
            },
    {
        match default_user {
            Some(id) => {
                if has_user_exec(&self.users, id.as_str()) {
                    self.default_user = Some(id.clone());
                    Ok(())
                } else {
                    Err(ContentError::DefaultUserNotFound(id.clone()))
                }
            },
            None => Ok(()),
        }
    }

    #[verifier::loop_isolation(false)]
    fn add_profile(&mut self, doc: &ProfileDocument) -> (r: Result<(), ContentError>)
        ensures
            match with_profile(old(self)@, doc) {
                Ok(config) => r is Ok && final(self)@ == config,
                Err(e) => r matches Err(err) && err@ == e,
            },
    {
        let ghost start = self@;
        let mut ids: Vec<String> = Vec::new();
        assert(ids.deep_view() =~= Seq::empty());
        let ghost first = ReadInstances { all: start.instances, ids: Seq::empty() };
        let mut i: usize = 0;
        while i < doc.instances.len()
            invariant
                i <= doc.instances.len(),
                self@ == (ConfigView { instances: self.instances.deep_view(), ..start }),
                with_instances(first, doc.instances@, doc.version@, 0) == with_instances(
                    ReadInstances { all: self.instances.deep_view(), ids: ids.deep_view() },
                    doc.instances@,
                    doc.version@,
                    i as int,
                ),
            decreases doc.instances.len() - i,
        {
            let instance = &doc.instances[i];
            if has_instance_exec(&self.instances, instance.id.as_str()) {
                return Err(ContentError::DuplicateInstance(instance.id.clone()));
            }
            let kind = if str_eq(instance.kind.as_str(), "client") {
                InstKind::Client
            } else if str_eq(instance.kind.as_str(), "server") {
                InstKind::Server
            } else {
                return Err(ContentError::InstType(instance.kind.clone(), instance.id.clone()));
            };
            let configured = ConfiguredInstance {
                id: instance.id.clone(),
                kind,
                version: doc.version.clone(),
            };
            let ghost before = self.instances;
            let ghost ids_before = ids;
            self.instances.push(configured);
            let id = instance.id.clone();
            ids.push(id);
            proof {
                lemma_push_deep_view(before, self.instances, configured);
                lemma_push_deep_view(ids_before, ids, id);
            }
            i += 1;
        }
        let ghost instances = ReadInstances { all: self.instances.deep_view(), ids: ids.deep_view() };
        let mut packages: Vec<PkgProfileConfig> = Vec::new();
        assert(packages.deep_view() =~= Seq::empty());
        let ghost none = ReadPackages { local: start.local_packages, configured: Seq::empty() };
        let mut k: usize = 0;
        while k < doc.packages.len()
            invariant
                k <= doc.packages.len(),
                with_instances(first, doc.instances@, doc.version@, 0) == Ok::<
                    ReadInstances,
                    ContentErrorView,
                >(instances),
                instances == (ReadInstances {
                    all: self.instances.deep_view(),
                    ids: ids.deep_view(),
                }),
                self@ == (ConfigView {
                    instances: self.instances.deep_view(),
                    local_packages: self.local_packages.deep_view(),
                    ..start
                }),
                with_packages(none, doc.packages@, doc.id@, 0) == with_packages(
                    ReadPackages {
                        local: self.local_packages.deep_view(),
                        configured: packages.deep_view(),
                    },
                    doc.packages@,
                    doc.id@,
                    k as int,
                ),
            decreases doc.packages.len() - k,
        {
            let package = &doc.packages[k];
            match read_local_package(package, doc.id.as_str())? {
                Some(local) => {
                    let ghost before = self.local_packages;
                    self.local_packages.push(local);
                    proof {
                        lemma_push_deep_view(before, self.local_packages, local);
                    }
                },
                None => {},
            }
            let ghost before = packages;
            let configured = read_package_config(package);
            packages.push(configured);
            proof {
                lemma_push_deep_view(before, packages, configured);
            }
            k += 1;
        }
        let profile = ConfiguredProfile {
            id: doc.id.clone(),
            version: doc.version.clone(),
            instances: ids,
            packages,
        };
        let ghost before = self.profiles;
        self.profiles.push(profile);
        proof {
            lemma_push_deep_view(before, self.profiles, profile);
        }
        Ok(())
    }

    /// Loads a configuration from a document and checks its content.
    #[verifier::loop_isolation(false)]
    pub fn load_from_obj(doc: &ConfigDocument) -> (r: Result<Config, ContentError>)
        ensures
            match config_of(doc) {
                Ok(config) => r matches Ok(got) && got@ == config,
                Err(e) => r matches Err(err) && err@ == e,
            },
    {
        let mut config = Config::new();
        config.add_users(&doc.users)?;
        config.set_default_user(&doc.default_user)?;
        let ghost signed_in = config@;
        let mut i: usize = 0;
        while i < doc.profiles.len()
            invariant
                i <= doc.profiles.len(),
                with_profiles(signed_in, doc.profiles@, 0) == with_profiles(
                    config@,
                    doc.profiles@,
                    i as int,
                ),
            decreases doc.profiles.len() - i,
        {
            config.add_profile(&doc.profiles[i])?;
            i += 1;
        }
        Ok(config)
    }
}

/// Whether a document is the example configuration: one user `example`
/// with a Microsoft account, nobody signed in, and one profile `example` of
/// version 1.19.3 with a client, a server and no packages.
pub open spec fn is_example_document(doc: &ConfigDocument) -> bool {
    &&& doc.users@.len() == 1
    &&& doc.users@[0].id@ == "example"@
    &&& doc.users@[0].kind@ == "microsoft"@
    &&& doc.users@[0].name@ == "ExampleUser441"@
    &&& doc.users@[0].uuid is None
    &&& doc.default_user is None
    &&& doc.profiles@.len() == 1
    &&& doc.profiles@[0].id@ == "example"@
    &&& doc.profiles@[0].version@ == "1.19.3"@
    &&& doc.profiles@[0].packages@.len() == 0
    &&& doc.profiles@[0].instances@.len() == 2
    &&& doc.profiles@[0].instances@[0].id@ == "example-client"@
    &&& doc.profiles@[0].instances@[0].kind@ == "client"@
    &&& doc.profiles@[0].instances@[1].id@ == "example-server"@
    &&& doc.profiles@[0].instances@[1].kind@ == "server"@
}

/// The configuration that the example document is read as.
pub open spec fn example_config() -> ConfigView {
    ConfigView {
        users: seq![
            UserView {
                kind: UserKind::Microsoft,
                id: "example"@,
                name: "ExampleUser441"@,
                uuid: None,
            },
        ],
        default_user: None,
        instances: seq![
            ConfiguredInstanceView {
                id: "example-client"@,
                kind: InstKind::Client,
                version: "1.19.3"@,
            },
            ConfiguredInstanceView {
                id: "example-server"@,
                kind: InstKind::Server,
                version: "1.19.3"@,
            },
        ],
        profiles: seq![
            ConfiguredProfileView {
                id: "example"@,
                version: "1.19.3"@,
                instances: seq!["example-client"@, "example-server"@],
                packages: Seq::empty(),
            },
        ],
        local_packages: Seq::empty(),
    }
}

/// The example document is read without error, as the example
/// configuration.
pub proof fn lemma_example_document_loads(doc: &ConfigDocument)
    requires
        is_example_document(doc),
    ensures
        config_of(doc) == Ok::<ConfigView, ContentErrorView>(example_config()),
{
    reveal_strlit("example-client");
    reveal_strlit("example-server");
    reveal_strlit("client");
    reveal_strlit("server");
    reveal_strlit("microsoft");
    reveal_strlit("demo");
    let empty = ConfigView::empty();
    let user = UserView {
        kind: UserKind::Microsoft,
        id: "example"@,
        name: "ExampleUser441"@,
        uuid: None,
    };
    assert(UserKind::parse(doc.users@[0].kind@) == Some(UserKind::Microsoft));
    assert(doc.users@[0].uuid.deep_view() == None::<Seq<char>>);
    assert(user_of(&doc.users@[0]) == Ok::<UserView, ContentErrorView>(user));
    let with_user = ConfigView { users: empty.users.push(user), ..empty };
    assert(with_users(with_user, doc.users@, 1) == Ok::<ConfigView, ContentErrorView>(with_user));
    assert(with_users(empty, doc.users@, 0) == Ok::<ConfigView, ContentErrorView>(with_user));
    assert(doc.default_user.deep_view() == None::<Seq<char>>);
    assert(with_default_user(with_user, None) == Ok::<ConfigView, ContentErrorView>(with_user));
    let profile = doc.profiles@[0];
    let client = ConfiguredInstanceView {
        id: "example-client"@,
        kind: InstKind::Client,
        version: "1.19.3"@,
    };
    let server = ConfiguredInstanceView {
        id: "example-server"@,
        kind: InstKind::Server,
        version: "1.19.3"@,
    };
    let first = ReadInstances { all: with_user.instances, ids: Seq::empty() };
    let second = ReadInstances {
        all: first.all.push(client),
        ids: first.ids.push("example-client"@),
    };
    let third = ReadInstances {
        all: second.all.push(server),
        ids: second.ids.push("example-server"@),
    };
    assert("example-client"@[8] != "example-server"@[8]);
    assert("server"@[0] != "client"@[0]);
    assert(instance_kind(profile.instances@[0].kind@) == Some(InstKind::Client));
    assert(instance_kind(profile.instances@[1].kind@) == Some(InstKind::Server));
    assert(!has_instance(first.all, profile.instances@[0].id@));
    assert(!has_instance(second.all, profile.instances@[1].id@));
    assert(with_instances(third, profile.instances@, profile.version@, 2) == Ok::<
        ReadInstances,
        ContentErrorView,
    >(third));
    assert(with_instances(second, profile.instances@, profile.version@, 1) == Ok::<
        ReadInstances,
        ContentErrorView,
    >(third));
    assert(with_instances(first, profile.instances@, profile.version@, 0) == Ok::<
        ReadInstances,
        ContentErrorView,
    >(third));
    let packages = ReadPackages { local: with_user.local_packages, configured: Seq::empty() };
    assert(with_packages(packages, profile.packages@, profile.id@, 0) == Ok::<
        ReadPackages,
        ContentErrorView,
    >(packages));
    let loaded = with_profile(with_user, &profile)->Ok_0;
    assert(with_profile(with_user, &profile) is Ok);
    assert(with_profiles(loaded, doc.profiles@, 1) == Ok::<ConfigView, ContentErrorView>(loaded));
    assert(with_profiles(with_user, doc.profiles@, 0) == Ok::<ConfigView, ContentErrorView>(
        loaded,
    ));
    assert(loaded.users =~= example_config().users);
    assert(loaded.instances =~= example_config().instances);
    assert(loaded.profiles[0].instances =~= example_config().profiles[0].instances);
    assert(loaded.profiles =~= example_config().profiles);
    assert(loaded.local_packages =~= example_config().local_packages);
}

/// The configuration that is written where there is none: an example user
/// and an example profile with a client and a server. It is read without
/// error, as the example configuration.
pub fn default_config() -> (r: ConfigDocument)
    ensures
        is_example_document(&r),
        config_of(&r) == Ok::<ConfigView, ContentErrorView>(example_config()),
{
    let mut users: Vec<UserDocument> = Vec::new();
    users.push(
        UserDocument {
            id: "example".to_owned(),
            kind: "microsoft".to_owned(),
            name: "ExampleUser441".to_owned(),
            uuid: None,
        },
    );
    let mut instances: Vec<InstanceDocument> = Vec::new();
    instances.push(
        InstanceDocument { id: "example-client".to_owned(), kind: "client".to_owned() },
    );
    instances.push(
        InstanceDocument { id: "example-server".to_owned(), kind: "server".to_owned() },
    );
    let mut profiles: Vec<ProfileDocument> = Vec::new();
    profiles.push(
        ProfileDocument {
            id: "example".to_owned(),
            version: "1.19.3".to_owned(),
            instances,
            packages: Vec::new(),
        },
    );
    let r = ConfigDocument { users, default_user: None, profiles };
    proof {
        lemma_example_document_loads(&r);
    }
    r
}

} // verus!
