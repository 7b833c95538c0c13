//! Evaluation of declarative packages.
//!
//! A declarative package states its relations and addons as data. There is
//! no control flow: conditions are filters on the rules and on the versions
//! of addons. Evaluation gives the same shape of result as the evaluation
//! of a script.

use vstd::prelude::*;
use crate::asset::{AssetKind, ModloaderMatch, PkgIdentifier, PluginLoaderMatch};
use crate::conditions::OSCondition;
use crate::eval::addon::{
    expand_local_addons, request_unexpanded, unexpanded_request, valid_addon, validate_addon,
    AddonRequest, AddonRequestView, PackageAddonOptionalHashes, PackageAddonOptionalHashesView,
};
use crate::eval::script::{
    has_addon, has_addon_exec, is_expanded_state, notices_within_limits,
};
use crate::eval::{
    any_modloader_admits, any_plugin_loader_admits, some_modloader_admits,
    some_plugin_loader_admits, EvalContext, EvalData, EvalError,
    EvalErrorKind, EvalErrorKindView, EvalErrorView, EvalInput, EvalInputView, EvalLevel,
    EvalState, RequiredPackage, RequiredPackageView, Routine, MAX_NOTICE_CHARACTERS,
    MAX_NOTICE_INSTRUCTIONS,
};
use crate::instance::Side;
use crate::lang::Language;
use crate::pkg::PackageStability;
use crate::text::{append_pairs, append_strings, clone_optional, lemma_push_deep_view};
use crate::versions::{contains, VersionPattern, VersionPatternView};

verus! {

/// A set of conditions that all have to hold. A condition that is left out
/// holds.
#[derive(Debug, PartialEq)]
pub struct DeclarativeConditionSet {
    /// The version of the game is admitted by one of the patterns.
    pub minecraft_versions: Option<Vec<VersionPattern>>,
    pub side: Option<Side>,
    /// The modloader is admitted by one of the patterns.
    pub modloaders: Option<Vec<ModloaderMatch>>,
    /// The plugin loader is admitted by one of the patterns.
    pub plugin_loaders: Option<Vec<PluginLoaderMatch>>,
    pub stability: Option<PackageStability>,
    /// All of the features are enabled.
    pub features: Option<Vec<String>>,
    pub os: Option<OSCondition>,
    pub language: Option<Language>,
}

/// The mathematical value of a [`DeclarativeConditionSet`].
pub struct DeclarativeConditionSetView {
    pub minecraft_versions: Option<Seq<VersionPatternView>>,
    pub side: Option<Side>,
    pub modloaders: Option<Seq<ModloaderMatch>>,
    pub plugin_loaders: Option<Seq<PluginLoaderMatch>>,
    pub stability: Option<PackageStability>,
    pub features: Option<Seq<Seq<char>>>,
    pub os: Option<OSCondition>,
    pub language: Option<Language>,
}

impl View for DeclarativeConditionSet {
    type V = DeclarativeConditionSetView;

    open spec fn view(&self) -> DeclarativeConditionSetView {
        DeclarativeConditionSetView {
            minecraft_versions: self.minecraft_versions.deep_view(),
            side: self.side,
            modloaders: match self.modloaders {
                Some(list) => Some(list@),
                None => None,
            },
            plugin_loaders: match self.plugin_loaders {
                Some(list) => Some(list@),
                None => None,
            },
            stability: self.stability,
            features: self.features.deep_view(),
            os: self.os,
            language: self.language,
        }
    }
}

impl DeepView for DeclarativeConditionSet {
    type V = DeclarativeConditionSetView;

    open spec fn deep_view(&self) -> DeclarativeConditionSetView {
        self@
    }
}

/// Whether one of the patterns admits the version.
pub open spec fn some_pattern_admits(
    patterns: Seq<VersionPatternView>,
    version: Seq<char>,
    versions: Seq<Seq<char>>,
) -> bool {
    exists|i: int| 0 <= i < patterns.len() && (#[trigger] patterns[i]).admits(version, versions)
}

/// Whether all of the features are among the enabled ones.
pub open spec fn all_enabled(features: Seq<Seq<char>>, enabled: Seq<Seq<char>>) -> bool {
    forall|i: int| 0 <= i < features.len() ==> enabled.contains(#[trigger] features[i])
}

impl DeclarativeConditionSetView {
    /// Whether all conditions of the set hold in a context.
    pub open spec fn holds(self, input: EvalInputView) -> bool {
        &&& self.minecraft_versions matches Some(patterns) ==> some_pattern_admits(
            patterns,
            input.constants.version,
            input.constants.version_list,
        )
        &&& self.side matches Some(side) ==> input.params.side == side
        &&& self.modloaders matches Some(loaders) ==> some_modloader_admits(
            loaders,
            input.constants.modifications.modloader_of(input.params.side),
        )
        &&& self.plugin_loaders matches Some(loaders) ==> some_plugin_loader_admits(
            loaders,
            input.constants.modifications.plugin_loader(),
        )
        &&& self.stability matches Some(stability) ==> input.params.stability == stability
        &&& self.features matches Some(features) ==> all_enabled(features, input.params.features)
        &&& self.os matches Some(os) ==> input.constants.os == os
        &&& self.language matches Some(lang) ==> input.constants.language == lang
    }
}

/// Whether all of the condition sets hold in a context.
pub open spec fn all_hold(sets: Seq<DeclarativeConditionSetView>, input: EvalInputView) -> bool {
    forall|i: int| 0 <= i < sets.len() ==> (#[trigger] sets[i]).holds(input)
}

fn any_pattern_admits(patterns: &Vec<VersionPattern>, version: &str, versions: &Vec<String>) -> (r:
    bool)
    ensures
        r == some_pattern_admits(patterns.deep_view(), version@, versions.deep_view()),
{
    let mut i: usize = 0;
    while i < patterns.len()
        invariant
            i <= patterns.len(),
            forall|j: int|
                0 <= j < i ==> !(#[trigger] patterns.deep_view()[j]).admits(
                    version@,
                    versions.deep_view(),
                ),
        decreases patterns.len() - i,
    {
        assert(patterns.deep_view()[i as int] == patterns[i as int]@);
        if patterns[i].matches_single(version, versions) {
            return true;
        }
        i += 1;
    }
    false
}

fn all_features_enabled(features: &Vec<String>, enabled: &Vec<String>) -> (r: bool)
    ensures
        r == all_enabled(features.deep_view(), enabled.deep_view()),
{
    let mut i: usize = 0;
    while i < features.len()
        invariant
            i <= features.len(),
            forall|j: int|
                0 <= j < i ==> enabled.deep_view().contains(#[trigger] features.deep_view()[j]),
        decreases features.len() - i,
    {
        assert(features.deep_view()[i as int] == features[i as int]@);
        if !contains(enabled, features[i].as_str()) {
            return false;
        }
        i += 1;
    }
    true
}

impl DeclarativeConditionSet {
    /// A set without conditions, which always holds.
    pub fn new() -> (r: Self)
        ensures
            r@ == (DeclarativeConditionSetView {
                minecraft_versions: None,
                side: None,
                modloaders: None,
                plugin_loaders: None,
                stability: None,
                features: None,
                os: None,
                language: None,
            }),
    {
        DeclarativeConditionSet {
            minecraft_versions: None,
            side: None,
            modloaders: None,
            plugin_loaders: None,
            stability: None,
            features: None,
            os: None,
            language: None,
        }
    }

    /// Checks whether all conditions of the set hold.
    pub fn check(&self, input: &EvalInput) -> (r: bool)
        ensures
            r == self@.holds(input@),
    {
        if let Some(patterns) = &self.minecraft_versions {
            if !any_pattern_admits(
                patterns,
                input.constants.version.as_str(),
                &input.constants.version_list,
            ) {
                return false;
            }
        }
        if let Some(side) = &self.side {
            if input.params.side != *side {
                return false;
            }
        }
        if let Some(loaders) = &self.modloaders {
            if !any_modloader_admits(
                loaders,
                input.constants.modifications.get_modloader(input.params.side),
            ) {
                return false;
            }
        }
        if let Some(loaders) = &self.plugin_loaders {
            if !any_plugin_loader_admits(loaders, input.constants.modifications.get_plugin_loader()) {
                return false;
            }
        }
        if let Some(stability) = &self.stability {
            if input.params.stability != *stability {
                return false;
            }
        }
        if let Some(features) = &self.features {
            if !all_features_enabled(features, &input.params.features) {
                return false;
            }
        }
        if let Some(os) = &self.os {
            if input.constants.os != *os {
                return false;
            }
        }
        if let Some(lang) = &self.language {
            if input.constants.language != *lang {
                return false;
            }
        }
        true
    }
}

/// Checks whether all of the condition sets hold.
pub fn check_multiple_condition_sets(sets: &Vec<DeclarativeConditionSet>, input: &EvalInput) -> (r:
    bool)
    ensures
        r == all_hold(sets.deep_view(), input@),
{
    let mut i: usize = 0;
    while i < sets.len()
        invariant
            i <= sets.len(),
            forall|j: int| 0 <= j < i ==> (#[trigger] sets.deep_view()[j]).holds(input@),
        decreases sets.len() - i,
    {
        assert(sets.deep_view()[i as int] == sets[i as int]@);
        if !sets[i].check(input) {
            return false;
        }
        i += 1;
    }
    true
}

/// The relations that a declarative package states.
#[derive(Debug, PartialEq)]
pub struct DeclarativePackageRelations {
    pub dependencies: Vec<String>,
    /// Dependencies that the user has to ask for as well.
    pub explicit_dependencies: Vec<String>,
    pub conflicts: Vec<String>,
    pub extensions: Vec<String>,
    pub bundled: Vec<String>,
    pub compats: Vec<(String, String)>,
    pub recommendations: Vec<String>,
}

/// The mathematical value of [`DeclarativePackageRelations`].
pub struct DeclarativeRelationsView {
    pub dependencies: Seq<Seq<char>>,
    pub explicit_dependencies: Seq<Seq<char>>,
    pub conflicts: Seq<Seq<char>>,
    pub extensions: Seq<Seq<char>>,
    pub bundled: Seq<Seq<char>>,
    pub compats: Seq<(Seq<char>, Seq<char>)>,
    pub recommendations: Seq<Seq<char>>,
}

impl View for DeclarativePackageRelations {
    type V = DeclarativeRelationsView;

    open spec fn view(&self) -> DeclarativeRelationsView {
        DeclarativeRelationsView {
            dependencies: self.dependencies.deep_view(),
            explicit_dependencies: self.explicit_dependencies.deep_view(),
            conflicts: self.conflicts.deep_view(),
            extensions: self.extensions.deep_view(),
            bundled: self.bundled.deep_view(),
            compats: self.compats.deep_view(),
            recommendations: self.recommendations.deep_view(),
        }
    }
}

impl DeclarativeRelationsView {
    /// No relations.
    pub open spec fn empty() -> DeclarativeRelationsView {
        DeclarativeRelationsView {
            dependencies: Seq::empty(),
            explicit_dependencies: Seq::empty(),
            conflicts: Seq::empty(),
            extensions: Seq::empty(),
            bundled: Seq::empty(),
            compats: Seq::empty(),
            recommendations: Seq::empty(),
        }
    }

    /// These relations followed by the relations `other`.
    pub open spec fn merge(self, other: DeclarativeRelationsView) -> DeclarativeRelationsView {
        DeclarativeRelationsView {
            dependencies: self.dependencies + other.dependencies,
            explicit_dependencies: self.explicit_dependencies + other.explicit_dependencies,
            conflicts: self.conflicts + other.conflicts,
            extensions: self.extensions + other.extensions,
            bundled: self.bundled + other.bundled,
            compats: self.compats + other.compats,
            recommendations: self.recommendations + other.recommendations,
        }
    }
}

impl DeclarativePackageRelations {
    /// No relations.
    pub fn new() -> (r: Self)
        ensures
            r@ == DeclarativeRelationsView::empty(),
    {
        let r = DeclarativePackageRelations {
            dependencies: Vec::new(),
            explicit_dependencies: Vec::new(),
            conflicts: Vec::new(),
            extensions: Vec::new(),
            bundled: Vec::new(),
            compats: Vec::new(),
            recommendations: Vec::new(),
        };
        proof {
            assert(r.dependencies.deep_view() =~= Seq::empty());
            assert(r.explicit_dependencies.deep_view() =~= Seq::empty());
            assert(r.conflicts.deep_view() =~= Seq::empty());
            assert(r.extensions.deep_view() =~= Seq::empty());
            assert(r.bundled.deep_view() =~= Seq::empty());
            assert(r.compats.deep_view() =~= Seq::empty());
            assert(r.recommendations.deep_view() =~= Seq::empty());
        }
        r
    }

    /// Adds the relations `other` behind these relations.
    pub fn merge(&mut self, other: &DeclarativePackageRelations)
        ensures
            final(self)@ == old(self)@.merge(other@),
    {
        append_strings(&mut self.dependencies, &other.dependencies);
        append_strings(&mut self.explicit_dependencies, &other.explicit_dependencies);
        append_strings(&mut self.conflicts, &other.conflicts);
        append_strings(&mut self.extensions, &other.extensions);
        append_strings(&mut self.bundled, &other.bundled);
        append_pairs(&mut self.compats, &other.compats);
        append_strings(&mut self.recommendations, &other.recommendations);
    }
}

/// One version of an addon of a declarative package.
#[derive(Debug, PartialEq)]
pub struct DeclarativeAddonVersion {
    /// When this version is chosen.
    pub conditions: DeclarativeConditionSet,
    pub url: Option<String>,
    pub path: Option<String>,
    pub version: Option<String>,
    pub filename: Option<String>,
    pub hashes: PackageAddonOptionalHashes,
    /// Relations that the package has where this version is chosen.
    pub relations: DeclarativePackageRelations,
    /// Notices that are shown where this version is chosen.
    pub notices: Vec<String>,
}

/// The mathematical value of a [`DeclarativeAddonVersion`].
pub struct DeclarativeAddonVersionView {
    pub conditions: DeclarativeConditionSetView,
    pub url: Option<Seq<char>>,
    pub path: Option<Seq<char>>,
    pub version: Option<Seq<char>>,
    pub filename: Option<Seq<char>>,
    pub hashes: PackageAddonOptionalHashesView,
    pub relations: DeclarativeRelationsView,
    pub notices: Seq<Seq<char>>,
}

impl View for DeclarativeAddonVersion {
    type V = DeclarativeAddonVersionView;

    open spec fn view(&self) -> DeclarativeAddonVersionView {
        DeclarativeAddonVersionView {
            conditions: self.conditions@,
            url: self.url.deep_view(),
            path: self.path.deep_view(),
            version: self.version.deep_view(),
            filename: self.filename.deep_view(),
            hashes: self.hashes@,
            relations: self.relations@,
            notices: self.notices.deep_view(),
        }
    }
}

impl DeepView for DeclarativeAddonVersion {
    type V = DeclarativeAddonVersionView;

    open spec fn deep_view(&self) -> DeclarativeAddonVersionView {
        self@
    }
}

/// An addon of a declarative package.
#[derive(Debug, PartialEq)]
pub struct DeclarativeAddon {
    pub id: String,
    pub kind: AssetKind,
    /// When the addon is installed at all.
    pub conditions: Vec<DeclarativeConditionSet>,
    /// The versions of the addon; the first whose conditions hold is
    /// chosen.
    pub versions: Vec<DeclarativeAddonVersion>,
}

/// The mathematical value of a [`DeclarativeAddon`].
pub struct DeclarativeAddonView {
    pub id: Seq<char>,
    pub kind: AssetKind,
    pub conditions: Seq<DeclarativeConditionSetView>,
    pub versions: Seq<DeclarativeAddonVersionView>,
}

impl View for DeclarativeAddon {
    type V = DeclarativeAddonView;

    open spec fn view(&self) -> DeclarativeAddonView {
        DeclarativeAddonView {
            id: self.id@,
            kind: self.kind,
            conditions: self.conditions.deep_view(),
            versions: self.versions.deep_view(),
        }
    }
}

impl DeepView for DeclarativeAddon {
    type V = DeclarativeAddonView;

    open spec fn deep_view(&self) -> DeclarativeAddonView {
        self@
    }
}

/// Relations and notices that a declarative package has under conditions.
#[derive(Debug, PartialEq)]
pub struct DeclarativeConditionalRule {
    pub conditions: Vec<DeclarativeConditionSet>,
    pub relations: DeclarativePackageRelations,
    pub notices: Vec<String>,
}

/// The mathematical value of a [`DeclarativeConditionalRule`].
pub struct DeclarativeConditionalRuleView {
    pub conditions: Seq<DeclarativeConditionSetView>,
    pub relations: DeclarativeRelationsView,
    pub notices: Seq<Seq<char>>,
}

impl View for DeclarativeConditionalRule {
    type V = DeclarativeConditionalRuleView;

    open spec fn view(&self) -> DeclarativeConditionalRuleView {
        DeclarativeConditionalRuleView {
            conditions: self.conditions.deep_view(),
            relations: self.relations@,
            notices: self.notices.deep_view(),
        }
    }
}

impl DeepView for DeclarativeConditionalRule {
    type V = DeclarativeConditionalRuleView;

    open spec fn deep_view(&self) -> DeclarativeConditionalRuleView {
        self@
    }
}

/// A package that states its relations and addons as data.
#[derive(Debug, PartialEq)]
pub struct DeclarativePackage {
    pub relations: DeclarativePackageRelations,
    pub addons: Vec<DeclarativeAddon>,
    pub conditional_rules: Vec<DeclarativeConditionalRule>,
}

/// The mathematical value of a [`DeclarativePackage`].
pub struct DeclarativePackageView {
    pub relations: DeclarativeRelationsView,
    pub addons: Seq<DeclarativeAddonView>,
    pub conditional_rules: Seq<DeclarativeConditionalRuleView>,
}

impl View for DeclarativePackage {
    type V = DeclarativePackageView;

    open spec fn view(&self) -> DeclarativePackageView {
        DeclarativePackageView {
            relations: self.relations@,
            addons: self.addons.deep_view(),
            conditional_rules: self.conditional_rules.deep_view(),
        }
    }
}

/// What the evaluation of a declarative package has gathered.
pub struct Gathered {
    pub relations: DeclarativeRelationsView,
    pub notices: Seq<Seq<char>>,
    pub addon_reqs: Seq<AddonRequestView>,
}

/// What is gathered after the rules from index `from` on: the relations and
/// notices of each rule whose conditions all hold are added, in the order
/// of the rules.
pub open spec fn gather_rules(
    rules: Seq<DeclarativeConditionalRuleView>,
    from: int,
    input: EvalInputView,
    gathered: Gathered,
) -> Gathered
    decreases rules.len() - from,
{
    if 0 <= from < rules.len() {
        gather_rules(
            rules,
            from + 1,
            input,
            if all_hold(rules[from].conditions, input) {
                Gathered {
                    relations: gathered.relations.merge(rules[from].relations),
                    notices: gathered.notices + rules[from].notices,
                    ..gathered
                }
            } else {
                gathered
            },
        )
    } else {
        gathered
    }
}

/// The index of the first version from index `from` on whose conditions
/// hold.
pub open spec fn pick_version(
    versions: Seq<DeclarativeAddonVersionView>,
    from: int,
    input: EvalInputView,
) -> Option<int>
    decreases versions.len() - from,
{
    if 0 <= from < versions.len() {
        if versions[from].conditions.holds(input) {
            Some(from)
        } else {
            pick_version(versions, from + 1, input)
        }
    } else {
        None
    }
}

/// The request for the chosen version of an addon, with the path of a
/// local addon as it is written. No two addons may have one identifier.
pub open spec fn version_request(
    addon: DeclarativeAddonView,
    version: DeclarativeAddonVersionView,
    ctx: EvalContext,
    requests: Seq<AddonRequestView>,
) -> Result<AddonRequestView, EvalErrorKindView> {
    if has_addon(requests, addon.id) {
        Err(EvalErrorKindView::DuplicateAddon(addon.id))
    } else {
        match valid_addon(
            addon.id,
            addon.kind,
            version.filename,
            version.version,
            ctx.package,
            version.hashes,
        ) {
            Ok(valid) => unexpanded_request(valid, version.url, version.path, ctx.input.params.perms),
            Err(e) => Err(e),
        }
    }
}

/// What is gathered after the addons from index `from` on. An addon whose
/// conditions all hold needs a version whose conditions hold; the first
/// such version is chosen. Its relations and notices are added, and when
/// installing its file is requested.
pub open spec fn gather_addons(
    addons: Seq<DeclarativeAddonView>,
    from: int,
    ctx: EvalContext,
    gathered: Gathered,
) -> Result<Gathered, EvalErrorKindView>
    decreases addons.len() - from,
{
    if 0 <= from < addons.len() {
        let addon = addons[from];
        if all_hold(addon.conditions, ctx.input) {
            match pick_version(addon.versions, 0, ctx.input) {
                None => Err(EvalErrorKindView::NoAddonVersion(addon.id)),
                Some(chosen) => {
                    let version = addon.versions[chosen];
                    let merged = Gathered {
                        relations: gathered.relations.merge(version.relations),
                        notices: gathered.notices + version.notices,
                        ..gathered
                    };
                    if ctx.level == EvalLevel::Install {
                        match version_request(addon, version, ctx, gathered.addon_reqs) {
                            Ok(request) => gather_addons(
                                addons,
                                from + 1,
                                ctx,
                                Gathered {
                                    addon_reqs: gathered.addon_reqs.push(request),
                                    ..merged
                                },
                            ),
                            Err(e) => Err(e),
                        }
                    } else {
                        gather_addons(addons, from + 1, ctx, merged)
                    }
                },
            }
        } else {
            gather_addons(addons, from + 1, ctx, gathered)
        }
    } else {
        Ok(gathered)
    }
}

/// One dependency group for each dependency.
pub open spec fn single_groups(names: Seq<Seq<char>>, explicit: bool) -> Seq<
    Seq<RequiredPackageView>,
> {
    Seq::new(names.len(), |i: int| seq![RequiredPackageView { value: names[i], explicit }])
}

/// Whether some notice is longer than is allowed.
pub open spec fn some_notice_too_long(notices: Seq<Seq<char>>) -> bool {
    exists|i: int| 0 <= i < notices.len() && (#[trigger] notices[i]).len() > MAX_NOTICE_CHARACTERS
}

/// The state that an evaluation ends with, given what it has gathered. The
/// notices have to be within their limits. Relations are recorded only
/// when resolving.
pub open spec fn gathered_state(gathered: Gathered, ctx: EvalContext) -> Result<
    EvalState,
    EvalErrorKindView,
> {
    if gathered.notices.len() > MAX_NOTICE_INSTRUCTIONS {
        Err(EvalErrorKindView::TooManyNotices)
    } else if some_notice_too_long(gathered.notices) {
        Err(EvalErrorKindView::NoticeTooLong)
    } else if ctx.level == EvalLevel::Resolve {
        Ok(
            EvalState {
                addon_reqs: gathered.addon_reqs,
                deps: single_groups(gathered.relations.dependencies, false) + single_groups(
                    gathered.relations.explicit_dependencies,
                    true,
                ),
                conflicts: gathered.relations.conflicts,
                recommendations: gathered.relations.recommendations,
                bundled: gathered.relations.bundled,
                compats: gathered.relations.compats,
                extensions: gathered.relations.extensions,
                notices: gathered.notices,
                ..EvalState::empty()
            },
        )
    } else {
        Ok(
            EvalState {
                addon_reqs: gathered.addon_reqs,
                notices: gathered.notices,
                ..EvalState::empty()
            },
        )
    }
}

/// What evaluating a declarative package gives.
pub open spec fn run_declarative(package: DeclarativePackageView, ctx: EvalContext) -> Result<
    EvalState,
    EvalErrorView,
> {
    let start = Gathered {
        relations: package.relations,
        notices: Seq::empty(),
        addon_reqs: Seq::empty(),
    };
    let ruled = gather_rules(package.conditional_rules, 0, ctx.input, start);
    match gather_addons(package.addons, 0, ctx, ruled) {
        Ok(gathered) => match gathered_state(gathered, ctx) {
            Ok(state) => Ok(state),
            Err(e) => Err(ctx.error(e, None)),
        },
        Err(e) => Err(ctx.error(e, None)),
    }
}

fn pick_best_addon_version(versions: &Vec<DeclarativeAddonVersion>, input: &EvalInput) -> (r:
    Option<usize>)
    ensures
        match r {
            Some(index) => pick_version(versions.deep_view(), 0, input@) == Some(index as int)
                && index < versions.len(),
            None => pick_version(versions.deep_view(), 0, input@) is None,
        },
{
    let ghost all = versions.deep_view();
    let mut i: usize = 0;
    while i < versions.len()
        invariant
            i <= versions.len(),
            all == versions.deep_view(),
            pick_version(all, 0, input@) == pick_version(all, i as int, input@),
        decreases versions.len() - i,
    {
        assert(all[i as int] == versions[i as int]@);
        if versions[i].conditions.check(input) {
            return Some(i);
        }
        i += 1;
    }
    None
}

fn make_version_request(
    addon: &DeclarativeAddon,
    version: &DeclarativeAddonVersion,
    eval: &EvalData,
) -> (r: Result<AddonRequest, EvalErrorKind>)
    ensures
        match version_request(addon@, version@, eval.context(), eval.state().addon_reqs) {
            Ok(request) => r matches Ok(got) && got@ == request,
            Err(e) => r matches Err(err) && err@ == e,
        },
{
    if has_addon_exec(&eval.addon_reqs, addon.id.as_str()) {
        return Err(EvalErrorKind::DuplicateAddon(addon.id.clone()));
    }
    let valid = validate_addon(
        addon.id.clone(),
        addon.kind,
        clone_optional(&version.filename),
        clone_optional(&version.version),
        eval.id.clone(),
        version.hashes.clone(),
    )?;
    request_unexpanded(
        valid,
        clone_optional(&version.url),
        clone_optional(&version.path),
        eval.input.params.perms,
    )
}

fn push_single_groups(deps: &mut Vec<Vec<RequiredPackage>>, names: &Vec<String>, explicit: bool)
    ensures
        final(deps).deep_view() == old(deps).deep_view() + single_groups(
            names.deep_view(),
            explicit,
        ),
{
    let ghost start = deps.deep_view();
    let ghost all = single_groups(names.deep_view(), explicit);
    let mut i: usize = 0;
    assert(start + all.take(0) =~= start);
    while i < names.len()
        invariant
            i <= names.len(),
            all == single_groups(names.deep_view(), explicit),
            deps.deep_view() == start + all.take(i as int),
        decreases names.len() - i,
    {
        let ghost before = *deps;
        let mut group: Vec<RequiredPackage> = Vec::new();
        let ghost empty = group;
        let item = RequiredPackage { value: names[i].clone(), explicit };
        group.push(item);
        deps.push(group);
        proof {
            lemma_push_deep_view(empty, group, item);
            lemma_push_deep_view(before, *deps, group);
            assert(empty.deep_view() =~= Seq::empty());
            assert(group.deep_view() =~= seq![item@]);
            assert(names.deep_view()[i as int] == names[i as int]@);
            assert(all[i as int] == group.deep_view());
            assert(start + all.take(i + 1) =~= (start + all.take(i as int)).push(all[i as int]));
        }
        i += 1;
    }
    assert(all.take(names.len() as int) =~= all);
}

fn any_notice_too_long(notices: &Vec<String>) -> (r: bool)
    ensures
        r == some_notice_too_long(notices.deep_view()),
{
    let mut i: usize = 0;
    while i < notices.len()
        invariant
            i <= notices.len(),
            forall|j: int|
                0 <= j < i ==> (#[trigger] notices.deep_view()[j]).len() <= MAX_NOTICE_CHARACTERS,
        decreases notices.len() - i,
    {
        assert(notices.deep_view()[i as int] == notices[i as int]@);
        if notices[i].as_str().unicode_len() > MAX_NOTICE_CHARACTERS {
            return true;
        }
        i += 1;
    }
    false
}

/// What was gathered, as the evaluation holds it: the requests and notices
/// in `eval`, the relations beside it.
spec fn gathered_in(eval: &EvalData, relations: &DeclarativePackageRelations) -> Gathered {
    Gathered {
        relations: relations@,
        notices: eval.notices.deep_view(),
        addon_reqs: eval.addon_reqs.deep_view(),
    }
}

/// Evaluate a declarative package.
///
/// Once the package is evaluated, a leading `~` in the paths of local
/// addons is expanded.
#[verifier::loop_isolation(false)]
pub fn eval_declarative_package<'a>(
    id: PkgIdentifier,
    contents: &DeclarativePackage,
    input: EvalInput<'a>,
    routine: Routine,
) -> (r: Result<EvalData<'a>, EvalError>)
    ensures
        match run_declarative(
            contents@,
            EvalContext { input: input@, package: id@, level: routine.level() },
        ) {
            Ok(state) => r matches Ok(eval) && eval.context() == (EvalContext {
                input: input@,
                package: id@,
                level: routine.level(),
            }) && is_expanded_state(state, eval.state()),
            Err(e) => r matches Err(err) && err@ == e,
        },
{
    let ghost ctx = EvalContext { input: input@, package: id@, level: routine.level() };
    let mut eval = EvalData::new(input, id, &routine);
    let mut relations = DeclarativePackageRelations::new();
    relations.merge(&contents.relations);
    proof {
        assert(relations@ =~= contents@.relations) by {
            assert(Seq::<Seq<char>>::empty() + contents@.relations.dependencies
                =~= contents@.relations.dependencies);
            assert(Seq::<Seq<char>>::empty() + contents@.relations.explicit_dependencies
                =~= contents@.relations.explicit_dependencies);
            assert(Seq::<Seq<char>>::empty() + contents@.relations.conflicts
                =~= contents@.relations.conflicts);
            assert(Seq::<Seq<char>>::empty() + contents@.relations.extensions
                =~= contents@.relations.extensions);
            assert(Seq::<Seq<char>>::empty() + contents@.relations.bundled
                =~= contents@.relations.bundled);
            assert(Seq::<(Seq<char>, Seq<char>)>::empty() + contents@.relations.compats
                =~= contents@.relations.compats);
            assert(Seq::<Seq<char>>::empty() + contents@.relations.recommendations
                =~= contents@.relations.recommendations);
        }
    }
    let ghost start = gathered_in(&eval, &relations);
    let ghost rules = contents@.conditional_rules;
    let mut i: usize = 0;
    while i < contents.conditional_rules.len()
        invariant
            i <= contents.conditional_rules.len(),
            rules == contents.conditional_rules.deep_view(),
            eval.context() == ctx,
            eval.state() == (EvalState { notices: eval.notices.deep_view(), ..EvalState::empty() }),
            gather_rules(rules, 0, ctx.input, start) == gather_rules(
                rules,
                i as int,
                ctx.input,
                gathered_in(&eval, &relations),
            ),
        decreases contents.conditional_rules.len() - i,
    {
        let rule = &contents.conditional_rules[i];
        assert(rules[i as int] == rule@);
        if check_multiple_condition_sets(&rule.conditions, &eval.input) {
            relations.merge(&rule.relations);
            append_strings(&mut eval.notices, &rule.notices);
        }
        i += 1;
    }
    let ghost ruled = gathered_in(&eval, &relations);
    let ghost addons = contents@.addons;
    let mut k: usize = 0;
    while k < contents.addons.len()
        invariant
            k <= contents.addons.len(),
            addons == contents.addons.deep_view(),
            eval.context() == ctx,
            eval.state() == (EvalState {
                notices: eval.notices.deep_view(),
                addon_reqs: eval.addon_reqs.deep_view(),
                ..EvalState::empty()
            }),
            gather_addons(addons, 0, ctx, ruled) == gather_addons(
                addons,
                k as int,
                ctx,
                gathered_in(&eval, &relations),
            ),
        decreases contents.addons.len() - k,
    {
        let addon = &contents.addons[k];
        assert(addons[k as int] == addon@);
        if check_multiple_condition_sets(&addon.conditions, &eval.input) {
            match pick_best_addon_version(&addon.versions, &eval.input) {
                None => {
                    return Err(eval.error(EvalErrorKind::NoAddonVersion(addon.id.clone()), None));
                },
                Some(chosen) => {
                    let version = &addon.versions[chosen];
                    assert(addon@.versions[chosen as int] == version@);
                    if let EvalLevel::Install = eval.level {
                        match make_version_request(addon, version, &eval) {
                            Ok(request) => {
                                let ghost before = eval.addon_reqs;
                                eval.addon_reqs.push(request);
                                proof {
                                    lemma_push_deep_view(before, eval.addon_reqs, request);
                                }
                            },
                            Err(e) => {
                                return Err(eval.error(e, None));
                            },
                        }
                    }
                    relations.merge(&version.relations);
                    append_strings(&mut eval.notices, &version.notices);
                },
            }
        }
        k += 1;
    }
    if eval.notices.len() > MAX_NOTICE_INSTRUCTIONS {
        return Err(eval.error(EvalErrorKind::TooManyNotices, None));
    }
    if any_notice_too_long(&eval.notices) {
        return Err(eval.error(EvalErrorKind::NoticeTooLong, None));
    }
    if let EvalLevel::Resolve = eval.level {
        push_single_groups(&mut eval.deps, &relations.dependencies, false);
        push_single_groups(&mut eval.deps, &relations.explicit_dependencies, true);
        append_strings(&mut eval.conflicts, &relations.conflicts);
        append_strings(&mut eval.recommendations, &relations.recommendations);
        append_strings(&mut eval.bundled, &relations.bundled);
        append_pairs(&mut eval.compats, &relations.compats);
        append_strings(&mut eval.extensions, &relations.extensions);
        proof {
            let gathered = gathered_in(&eval, &relations);
            let state = gathered_state(gathered, ctx)->Ok_0;
            assert(eval.deps.deep_view() =~= state.deps);
            assert(eval.conflicts.deep_view() =~= state.conflicts);
            assert(eval.recommendations.deep_view() =~= state.recommendations);
            assert(eval.bundled.deep_view() =~= state.bundled);
            assert(eval.compats.deep_view() =~= state.compats);
            assert(eval.extensions.deep_view() =~= state.extensions);
        }
    }
    let expanded = expand_local_addons(&eval.addon_reqs);
    eval.addon_reqs = expanded;
    Ok(eval)
}

/// Every evaluation of a declarative package that succeeds has gathered no
/// more notices than are allowed, none of them longer than is allowed.
pub proof fn lemma_declarative_keeps_notice_limits(package: DeclarativePackageView, ctx: EvalContext)
    ensures
        run_declarative(package, ctx) matches Ok(state) ==> notices_within_limits(state.notices),
{
    if let Ok(state) = run_declarative(package, ctx) {
        assert forall|i: int| 0 <= i < state.notices.len() implies (#[trigger] state.notices[i]).len()
            <= MAX_NOTICE_CHARACTERS by {
            assert(!some_notice_too_long(state.notices));
        }
    }
}

} // verus!
