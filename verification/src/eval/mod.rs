//! Evaluation of packages against an installation context.

pub mod addon;
pub mod conditions;
pub mod declarative;
pub mod script;

use vstd::prelude::*;
use crate::asset::{
    Modloader, ModloaderMatch, PkgIdentifier, PkgIdentifierView, PluginLoader, PluginLoaderMatch,
};
use crate::conditions::OSCondition;
use crate::eval::addon::{AddonRequest, AddonRequestView};
use crate::instance::Side;
use crate::instruction::FailReason;
use crate::lang::Language;
use crate::lex::TextPos;
use crate::modifications::GameModifications;
use crate::parse::INSTALL_ROUTINE;
use crate::pkg::PackageStability;
use crate::text::clone_strings;
use crate::value::{ValueError, ValueErrorView, Vars};

verus! {

/// Max notice instructions per package.
pub const MAX_NOTICE_INSTRUCTIONS: usize = 10;

/// Max characters per notice instruction.
pub const MAX_NOTICE_CHARACTERS: usize = 128;

/// What instructions the evaluator will evaluate (depends on what routine we
/// are running).
#[derive(Debug, Clone, Copy, PartialEq, Eq, Structural)]
pub enum EvalLevel {
    /// When we are installing the addons of a package.
    Install,
    /// When we are resolving package relationships.
    Resolve,
}

/// Permissions level for an evaluation.
#[derive(Debug, Clone, Copy, PartialEq, Eq, Structural)]
pub enum EvalPermissions {
    Restricted,
    Standard,
    Elevated,
}

impl Default for EvalPermissions {
    fn default() -> (r: Self)
        ensures
            r == EvalPermissions::Standard,
    {
        EvalPermissions::Standard
    }
}

/// Context / purpose for when we are evaluating.
#[derive(Debug, Clone, Copy, PartialEq, Eq, Structural)]
pub enum Routine {
    Install,
    /// Install routine, except for resolution.
    InstallResolve,
}

impl Routine {
    /// The level that the routine is evaluated at.
    pub open spec fn level(self) -> EvalLevel {
        match self {
            Routine::Install => EvalLevel::Install,
            Routine::InstallResolve => EvalLevel::Resolve,
        }
    }

    /// The name of the routine that is evaluated.
    pub fn get_routine_name(&self) -> (r: String)
        ensures
            r@ == INSTALL_ROUTINE@,
    {
        match self {
            Self::Install => INSTALL_ROUTINE.to_owned(),
            Self::InstallResolve => INSTALL_ROUTINE.to_owned(),
        }
    }

    /// The level that the routine is evaluated at.
    pub fn get_level(&self) -> (r: EvalLevel)
        ensures
            r == self.level(),
    {
        match self {
            Self::Install => EvalLevel::Install,
            Self::InstallResolve => EvalLevel::Resolve,
        }
    }
}

/// Constants for the evaluation that will be the same across every package.
#[derive(Debug)]
pub struct EvalConstants {
    /// The version of the game that is installed.
    pub version: String,
    pub modifications: GameModifications,
    /// All versions of the game, oldest first.
    pub version_list: Vec<String>,
    pub language: Language,
    /// The operating system that is installed on.
    pub os: OSCondition,
}

/// The mathematical value of [`EvalConstants`].
pub struct EvalConstantsView {
    pub version: Seq<char>,
    pub modifications: GameModifications,
    pub version_list: Seq<Seq<char>>,
    pub language: Language,
    pub os: OSCondition,
}

impl View for EvalConstants {
    type V = EvalConstantsView;

    open spec fn view(&self) -> EvalConstantsView {
        EvalConstantsView {
            version: self.version@,
            modifications: self.modifications,
            version_list: self.version_list.deep_view(),
            language: self.language,
            os: self.os,
        }
    }
}

impl Clone for EvalConstants {
    fn clone(&self) -> (r: Self)
        ensures
            r@ == self@,
    {
        EvalConstants {
            version: self.version.clone(),
            modifications: self.modifications,
            version_list: clone_strings(&self.version_list),
            language: self.language,
            os: self.os,
        }
    }
}

/// Constants for the evaluation that may be different for each package.
#[derive(Debug)]
pub struct EvalParameters {
    pub side: Side,
    pub features: Vec<String>,
    pub perms: EvalPermissions,
    pub stability: PackageStability,
}

/// The mathematical value of [`EvalParameters`].
pub struct EvalParametersView {
    pub side: Side,
    pub features: Seq<Seq<char>>,
    pub perms: EvalPermissions,
    pub stability: PackageStability,
}

impl View for EvalParameters {
    type V = EvalParametersView;

    open spec fn view(&self) -> EvalParametersView {
        EvalParametersView {
            side: self.side,
            features: self.features.deep_view(),
            perms: self.perms,
            stability: self.stability,
        }
    }
}

impl Clone for EvalParameters {
    fn clone(&self) -> (r: Self)
        ensures
            r@ == self@,
    {
        EvalParameters {
            side: self.side,
            features: clone_strings(&self.features),
            perms: self.perms,
            stability: self.stability,
        }
    }
}

/// Combination of both EvalConstants and EvalParameters.
#[derive(Debug)]
pub struct EvalInput<'a> {
    pub constants: &'a EvalConstants,
    pub params: EvalParameters,
}

/// The mathematical value of an [`EvalInput`].
pub struct EvalInputView {
    pub constants: EvalConstantsView,
    pub params: EvalParametersView,
}

impl<'a> View for EvalInput<'a> {
    type V = EvalInputView;

    open spec fn view(&self) -> EvalInputView {
        EvalInputView { constants: self.constants@, params: self.params@ }
    }
}

impl<'a> Clone for EvalInput<'a> {
    fn clone(&self) -> (r: Self)
        ensures
            r@ == self@,
    {
        EvalInput { constants: self.constants, params: self.params.clone() }
    }
}

/// A package that another one depends on.
#[derive(Debug, PartialEq, Eq)]
pub struct RequiredPackage {
    /// The package that is asked for.
    pub value: String,
    /// Whether the package must be asked for by the user as well.
    pub explicit: bool,
}

/// The mathematical value of a [`RequiredPackage`].
pub struct RequiredPackageView {
    pub value: Seq<char>,
    pub explicit: bool,
}

impl View for RequiredPackage {
    type V = RequiredPackageView;

    open spec fn view(&self) -> RequiredPackageView {
        RequiredPackageView { value: self.value@, explicit: self.explicit }
    }
}

impl DeepView for RequiredPackage {
    type V = RequiredPackageView;

    open spec fn deep_view(&self) -> RequiredPackageView {
        self@
    }
}

impl Clone for RequiredPackage {
    fn clone(&self) -> (r: Self)
        ensures
            r == *self,
    {
        RequiredPackage { value: self.value.clone(), explicit: self.explicit }
    }
}

/// What went wrong in an evaluation.
#[derive(Debug, PartialEq, Eq)]
pub enum EvalErrorKind {
    /// The script has no routine of this name.
    UnknownRoutine(String),
    /// The instruction is not allowed in the routine that is evaluated.
    InvalidInstruction,
    /// An `if` instruction names a block that does not exist or that does
    /// not come after its own.
    MissingBlock,
    /// A condition was evaluated before it was finished.
    UnfinishedCondition,
    /// A value could not be resolved.
    Value(ValueError),
    /// The package failed explicitly.
    Failed(FailReason),
    /// More notices than are allowed.
    TooManyNotices,
    /// A notice with more characters than are allowed.
    NoticeTooLong,
    /// A command without the permission to run commands.
    CommandNotPermitted,
    /// A second addon with this identifier.
    DuplicateAddon(String),
    /// An addon without a kind.
    MissingAddonKind,
    /// An addon identifier that is no identifier.
    InvalidAddonId(String),
    /// An addon version that is no version identifier.
    InvalidAddonVersion(String),
    /// A file name that an addon of its kind cannot have.
    InvalidAddonFilename(String),
    /// A hash that is not written in hexadecimal digits.
    InvalidHash,
    /// A SHA-256 hash of more bytes than such a hash has.
    Sha256TooLong,
    /// A SHA-512 hash of more bytes than such a hash has.
    Sha512TooLong,
    /// An addon from a local file without the permission to read files.
    LocalAddonNotPermitted(String),
    /// An addon without a location to fetch it from.
    NoAddonLocation(String),
    /// An addon with both an address and a path to fetch it from.
    AmbiguousAddonLocation(String),
    /// The package does not support the modloader.
    UnsupportedModloader,
    /// The package does not support the plugin loader.
    UnsupportedPluginLoader,
    /// A configured feature that the package does not have.
    UnknownFeature(String),
    /// An addon of which no version can be chosen.
    NoAddonVersion(String),
}

/// The mathematical value of an [`EvalErrorKind`].
pub enum EvalErrorKindView {
    UnknownRoutine(Seq<char>),
    InvalidInstruction,
    MissingBlock,
    UnfinishedCondition,
    Value(ValueErrorView),
    Failed(FailReason),
    TooManyNotices,
    NoticeTooLong,
    CommandNotPermitted,
    DuplicateAddon(Seq<char>),
    MissingAddonKind,
    InvalidAddonId(Seq<char>),
    InvalidAddonVersion(Seq<char>),
    InvalidAddonFilename(Seq<char>),
    InvalidHash,
    Sha256TooLong,
    Sha512TooLong,
    LocalAddonNotPermitted(Seq<char>),
    NoAddonLocation(Seq<char>),
    AmbiguousAddonLocation(Seq<char>),
    UnsupportedModloader,
    UnsupportedPluginLoader,
    UnknownFeature(Seq<char>),
    NoAddonVersion(Seq<char>),
}

impl View for EvalErrorKind {
    type V = EvalErrorKindView;

    open spec fn view(&self) -> EvalErrorKindView {
        match *self {
            EvalErrorKind::UnknownRoutine(name) => EvalErrorKindView::UnknownRoutine(name@),
            EvalErrorKind::InvalidInstruction => EvalErrorKindView::InvalidInstruction,
            EvalErrorKind::MissingBlock => EvalErrorKindView::MissingBlock,
            EvalErrorKind::UnfinishedCondition => EvalErrorKindView::UnfinishedCondition,
            EvalErrorKind::Value(e) => EvalErrorKindView::Value(e@),
            EvalErrorKind::Failed(reason) => EvalErrorKindView::Failed(reason),
            EvalErrorKind::TooManyNotices => EvalErrorKindView::TooManyNotices,
            EvalErrorKind::NoticeTooLong => EvalErrorKindView::NoticeTooLong,
            EvalErrorKind::CommandNotPermitted => EvalErrorKindView::CommandNotPermitted,
            EvalErrorKind::DuplicateAddon(id) => EvalErrorKindView::DuplicateAddon(id@),
            EvalErrorKind::MissingAddonKind => EvalErrorKindView::MissingAddonKind,
            EvalErrorKind::InvalidAddonId(id) => EvalErrorKindView::InvalidAddonId(id@),
            EvalErrorKind::InvalidAddonVersion(version) => EvalErrorKindView::InvalidAddonVersion(
                version@,
            ),
            EvalErrorKind::InvalidAddonFilename(name) => EvalErrorKindView::InvalidAddonFilename(
                name@,
            ),
            EvalErrorKind::InvalidHash => EvalErrorKindView::InvalidHash,
            EvalErrorKind::Sha256TooLong => EvalErrorKindView::Sha256TooLong,
            EvalErrorKind::Sha512TooLong => EvalErrorKindView::Sha512TooLong,
            EvalErrorKind::LocalAddonNotPermitted(id) => EvalErrorKindView::LocalAddonNotPermitted(
                id@,
            ),
            EvalErrorKind::NoAddonLocation(id) => EvalErrorKindView::NoAddonLocation(id@),
            EvalErrorKind::AmbiguousAddonLocation(id) => EvalErrorKindView::AmbiguousAddonLocation(
                id@,
            ),
            EvalErrorKind::UnsupportedModloader => EvalErrorKindView::UnsupportedModloader,
            EvalErrorKind::UnsupportedPluginLoader => EvalErrorKindView::UnsupportedPluginLoader,
            EvalErrorKind::UnknownFeature(name) => EvalErrorKindView::UnknownFeature(name@),
            EvalErrorKind::NoAddonVersion(id) => EvalErrorKindView::NoAddonVersion(id@),
        }
    }
}

/// An error of evaluating a package, with the package and, where an
/// instruction caused it, the position of the instruction.
#[derive(Debug, PartialEq, Eq)]
pub struct EvalError {
    pub kind: EvalErrorKind,
    pub package: PkgIdentifier,
    pub pos: Option<TextPos>,
}

/// The mathematical value of an [`EvalError`].
pub struct EvalErrorView {
    pub kind: EvalErrorKindView,
    pub package: PkgIdentifierView,
    pub pos: Option<TextPos>,
}

impl View for EvalError {
    type V = EvalErrorView;

    open spec fn view(&self) -> EvalErrorView {
        EvalErrorView { kind: self.kind@, package: self.package@, pos: self.pos }
    }
}

/// What an evaluation is made for, which it only reads.
pub struct EvalContext {
    pub input: EvalInputView,
    /// The package that is evaluated.
    pub package: PkgIdentifierView,
    pub level: EvalLevel,
}

impl EvalContext {
    /// The error of the given kind for the package of this evaluation.
    pub open spec fn error(self, kind: EvalErrorKindView, pos: Option<TextPos>) -> EvalErrorView {
        EvalErrorView { kind, package: self.package, pos }
    }
}

/// What an evaluation has gathered.
pub struct EvalState {
    pub vars: Map<Seq<char>, Seq<char>>,
    pub addon_reqs: Seq<AddonRequestView>,
    pub deps: Seq<Seq<RequiredPackageView>>,
    pub conflicts: Seq<Seq<char>>,
    pub recommendations: Seq<Seq<char>>,
    pub bundled: Seq<Seq<char>>,
    pub compats: Seq<(Seq<char>, Seq<char>)>,
    pub extensions: Seq<Seq<char>>,
    pub notices: Seq<Seq<char>>,
    pub commands: Seq<Seq<Seq<char>>>,
}

impl EvalState {
    /// The state of an evaluation that has gathered nothing.
    pub open spec fn empty() -> EvalState {
        EvalState {
            vars: Map::empty(),
            addon_reqs: Seq::empty(),
            deps: Seq::empty(),
            conflicts: Seq::empty(),
            recommendations: Seq::empty(),
            bundled: Seq::empty(),
            compats: Seq::empty(),
            extensions: Seq::empty(),
            notices: Seq::empty(),
            commands: Seq::empty(),
        }
    }
}

/// Persistent state for evaluation.
#[derive(Debug)]
pub struct EvalData<'a> {
    pub input: EvalInput<'a>,
    pub id: PkgIdentifier,
    pub level: EvalLevel,
    pub vars: Vars,
    pub addon_reqs: Vec<AddonRequest>,
    pub deps: Vec<Vec<RequiredPackage>>,
    pub conflicts: Vec<String>,
    pub recommendations: Vec<String>,
    pub bundled: Vec<String>,
    pub compats: Vec<(String, String)>,
    pub extensions: Vec<String>,
    pub notices: Vec<String>,
    pub commands: Vec<Vec<String>>,
}

impl<'a> EvalData<'a> {
    /// What the evaluation is made for.
    pub open spec fn context(&self) -> EvalContext {
        EvalContext { input: self.input@, package: self.id@, level: self.level }
    }

    /// What the evaluation has gathered.
    pub open spec fn state(&self) -> EvalState {
        EvalState {
            vars: self.vars@,
            addon_reqs: self.addon_reqs.deep_view(),
            deps: self.deps.deep_view(),
            conflicts: self.conflicts.deep_view(),
            recommendations: self.recommendations.deep_view(),
            bundled: self.bundled.deep_view(),
            compats: self.compats.deep_view(),
            extensions: self.extensions.deep_view(),
            notices: self.notices.deep_view(),
            commands: self.commands.deep_view(),
        }
    }

    /// The state of an evaluation of a package that has gathered nothing.
    pub fn new(input: EvalInput<'a>, id: PkgIdentifier, routine: &Routine) -> (r: Self)
        ensures
            r.context() == (EvalContext { input: input@, package: id@, level: routine.level() }),
            r.state() == EvalState::empty(),
    {
        let r = Self {
            input,
            id,
            level: routine.get_level(),
            vars: Vars::new(),
            addon_reqs: Vec::new(),
            deps: Vec::new(),
            conflicts: Vec::new(),
            recommendations: Vec::new(),
            bundled: Vec::new(),
            compats: Vec::new(),
            extensions: Vec::new(),
            notices: Vec::new(),
            commands: Vec::new(),
        };
        proof {
            assert(r.addon_reqs.deep_view() =~= Seq::empty());
            assert(r.deps.deep_view() =~= Seq::empty());
            assert(r.conflicts.deep_view() =~= Seq::empty());
            assert(r.recommendations.deep_view() =~= Seq::empty());
            assert(r.bundled.deep_view() =~= Seq::empty());
            assert(r.compats.deep_view() =~= Seq::empty());
            assert(r.extensions.deep_view() =~= Seq::empty());
            assert(r.notices.deep_view() =~= Seq::empty());
            assert(r.commands.deep_view() =~= Seq::empty());
        }
        r
    }

    /// The error of the given kind for the package of this evaluation.
    pub fn error(&self, kind: EvalErrorKind, pos: Option<TextPos>) -> (r: EvalError)
        ensures
            r@ == self.context().error(kind@, pos),
    {
        EvalError { kind, package: self.id.clone(), pos }
    }
}

/// What a package declares of itself apart from its contents.
#[derive(Debug)]
pub struct PackageProperties {
    /// The features that the package has.
    pub features: Option<Vec<String>>,
    /// The features that are enabled unless the user decides otherwise.
    pub default_features: Option<Vec<String>>,
    pub supported_modloaders: Option<Vec<ModloaderMatch>>,
    pub supported_plugin_loaders: Option<Vec<PluginLoaderMatch>>,
    pub supported_sides: Option<Vec<Side>>,
}

/// The mathematical value of [`PackageProperties`].
pub struct PackagePropertiesView {
    pub features: Option<Seq<Seq<char>>>,
    pub default_features: Option<Seq<Seq<char>>>,
    pub supported_modloaders: Option<Seq<ModloaderMatch>>,
    pub supported_plugin_loaders: Option<Seq<PluginLoaderMatch>>,
    pub supported_sides: Option<Seq<Side>>,
}

impl View for PackageProperties {
    type V = PackagePropertiesView;

    open spec fn view(&self) -> PackagePropertiesView {
        PackagePropertiesView {
            features: self.features.deep_view(),
            default_features: self.default_features.deep_view(),
            supported_modloaders: match self.supported_modloaders {
                Some(list) => Some(list@),
                None => None,
            },
            supported_plugin_loaders: match self.supported_plugin_loaders {
                Some(list) => Some(list@),
                None => None,
            },
            supported_sides: match self.supported_sides {
                Some(list) => Some(list@),
                None => None,
            },
        }
    }
}

impl PackageProperties {
    /// Properties that declare nothing.
    pub fn new() -> (r: Self)
        ensures
            r@ == (PackagePropertiesView {
                features: None,
                default_features: None,
                supported_modloaders: None,
                supported_plugin_loaders: None,
                supported_sides: None,
            }),
    {
        PackageProperties {
            features: None,
            default_features: None,
            supported_modloaders: None,
            supported_plugin_loaders: None,
            supported_sides: None,
        }
    }
}

impl PackagePropertiesView {
    /// Whether the package supports the modloader of the side that is
    /// evaluated for.
    pub open spec fn supports_modloader(self, input: EvalInputView) -> bool {
        match self.supported_modloaders {
            Some(list) => some_modloader_admits(
                list,
                input.constants.modifications.modloader_of(input.params.side),
            ),
            None => true,
        }
    }

    /// Whether the package supports the plugin loader of the server.
    pub open spec fn supports_plugin_loader(self, input: EvalInputView) -> bool {
        match self.supported_plugin_loaders {
            Some(list) => some_plugin_loader_admits(
                list,
                input.constants.modifications.plugin_loader(),
            ),
            None => true,
        }
    }

    /// Whether the package supports the side that is evaluated for.
    pub open spec fn supports_side(self, input: EvalInputView) -> bool {
        match self.supported_sides {
            Some(list) => list.contains(input.params.side),
            None => true,
        }
    }

    /// What the properties decide before a package is evaluated: an error
    /// where a loader is not supported; else whether the evaluation is
    /// skipped because the side is not supported.
    pub open spec fn check(self, input: EvalInputView) -> Result<bool, EvalErrorKindView> {
        if !self.supports_modloader(input) {
            Err(EvalErrorKindView::UnsupportedModloader)
        } else if !self.supports_plugin_loader(input) {
            Err(EvalErrorKindView::UnsupportedPluginLoader)
        } else {
            Ok(!self.supports_side(input))
        }
    }
}

/// Whether one of the patterns admits the modloader.
pub open spec fn some_modloader_admits(list: Seq<ModloaderMatch>, loader: Modloader) -> bool {
    exists|i: int| 0 <= i < list.len() && (#[trigger] list[i]).admits(loader)
}

/// Whether one of the patterns admits the plugin loader.
pub open spec fn some_plugin_loader_admits(
    list: Seq<PluginLoaderMatch>,
    loader: PluginLoader,
) -> bool {
    exists|i: int| 0 <= i < list.len() && (#[trigger] list[i]).admits(loader)
}

pub(crate) fn any_modloader_admits(list: &Vec<ModloaderMatch>, loader: Modloader) -> (r: bool)
    ensures
        r == some_modloader_admits(list@, loader),
{
    let mut i: usize = 0;
    while i < list.len()
        invariant
            i <= list.len(),
            forall|j: int| 0 <= j < i ==> !(#[trigger] list@[j]).admits(loader),
        decreases list.len() - i,
    {
        if list[i].matches(&loader) {
            return true;
        }
        i += 1;
    }
    false
}

pub(crate) fn any_plugin_loader_admits(list: &Vec<PluginLoaderMatch>, loader: PluginLoader) -> (r: bool)
    ensures
        r == some_plugin_loader_admits(list@, loader),
{
    let mut i: usize = 0;
    while i < list.len()
        invariant
            i <= list.len(),
            forall|j: int| 0 <= j < i ==> !(#[trigger] list@[j]).admits(loader),
        decreases list.len() - i,
    {
        if list[i].matches(&loader) {
            return true;
        }
        i += 1;
    }
    false
}

fn contains_side(list: &Vec<Side>, side: Side) -> (r: bool)
    ensures
        r == list@.contains(side),
{
    let mut i: usize = 0;
    while i < list.len()
        invariant
            i <= list.len(),
            forall|j: int| 0 <= j < i ==> list@[j] != side,
        decreases list.len() - i,
    {
        if list[i] == side {
            return true;
        }
        i += 1;
    }
    false
}

/// Check properties when evaluating. Returns true if the package should
/// finish evaluating with no error.
pub fn eval_check_properties(input: &EvalInput, properties: &PackageProperties) -> (r: Result<
    bool,
    EvalErrorKind,
>)
    ensures
        match properties@.check(input@) {
            Ok(skip) => r == Ok::<bool, EvalErrorKind>(skip),
            Err(e) => r matches Err(err) && err@ == e,
        },
{
    match &properties.supported_modloaders {
        Some(supported_modloaders) => {
            let loader = input.constants.modifications.get_modloader(input.params.side);
            if !any_modloader_admits(supported_modloaders, loader) {
                return Err(EvalErrorKind::UnsupportedModloader);
            }
        },
        None => {},
    }
    match &properties.supported_plugin_loaders {
        Some(supported_plugin_loaders) => {
            let loader = input.constants.modifications.get_plugin_loader();
            if !any_plugin_loader_admits(supported_plugin_loaders, loader) {
                return Err(EvalErrorKind::UnsupportedPluginLoader);
            }
        },
        None => {},
    }
    match &properties.supported_sides {
        Some(supported_sides) => Ok(!contains_side(supported_sides, input.params.side)),
        None => Ok(false),
    }
}

} // verus!
