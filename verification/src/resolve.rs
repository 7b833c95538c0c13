//! Resolution of the packages to install.
//!
//! Starting from the packages that the user configured, the resolver
//! evaluates each package for its relations, follows the chosen member of
//! every dependency group and every bundled package, and orders the packages
//! so that each one comes after all that it depends on. A conflict, a cycle
//! or a group without a member that can be had fails the resolution.

use vstd::prelude::*;
use vstd::set_lib::lemma_len_subset;
use crate::asset::{PkgIdentifier, PkgIdentifierView};
use crate::eval::{
    EvalConstants, EvalConstantsView, EvalError, EvalErrorView, EvalInput, EvalInputView,
    EvalParameters, EvalParametersView, RequiredPackage, RequiredPackageView,
};
use crate::package::{
    EvalRelationsResult, Package, PackageView, PkgProfileConfig, PkgProfileConfigView,
    RelationsView,
};
use crate::text::{
    append_pairs, append_strings, clone_strings, lemma_prepend_empty, lemma_prepend_push,
    lemma_push_deep_view, prepend, str_eq,
};
use crate::versions::{VersionPattern, VersionPatternView};

verus! {

/// Why a resolution failed.
#[derive(Debug, PartialEq, Eq)]
pub enum ResolutionError {
    /// A package was reached that another one refuses.
    Conflict { package: String, refused_by: String },
    /// A package depends on itself, directly or through others.
    Cycle { package: String, required_by: String },
    /// None of the alternatives of a dependency group can be had.
    UnsatisfiableGroup { package: String, alternatives: Vec<String> },
    /// A package that is asked for is not known. `bundled_by` is the
    /// package that bundles it, or nothing where the user asks for it.
    MissingPackage { package: String, bundled_by: Option<String> },
    /// A package could not be evaluated.
    Eval(EvalError),
}

/// The mathematical value of a [`ResolutionError`].
pub enum ResolutionErrorView {
    Conflict { package: Seq<char>, refused_by: Seq<char> },
    Cycle { package: Seq<char>, required_by: Seq<char> },
    UnsatisfiableGroup { package: Seq<char>, alternatives: Seq<Seq<char>> },
    MissingPackage { package: Seq<char>, bundled_by: Option<Seq<char>> },
    Eval(EvalErrorView),
}

impl View for ResolutionError {
    type V = ResolutionErrorView;

    open spec fn view(&self) -> ResolutionErrorView {
        match *self {
            ResolutionError::Conflict { package, refused_by } => ResolutionErrorView::Conflict {
                package: package@,
                refused_by: refused_by@,
            },
            ResolutionError::Cycle { package, required_by } => ResolutionErrorView::Cycle {
                package: package@,
                required_by: required_by@,
            },
            ResolutionError::UnsatisfiableGroup {
                package,
                alternatives,
            } => ResolutionErrorView::UnsatisfiableGroup {
                package: package@,
                alternatives: alternatives.deep_view(),
            },
            ResolutionError::MissingPackage {
                package,
                bundled_by,
            } => ResolutionErrorView::MissingPackage {
                package: package@,
                bundled_by: bundled_by.deep_view(),
            },
            ResolutionError::Eval(e) => ResolutionErrorView::Eval(e@),
        }
    }
}

/// The result of a resolution.
#[derive(Debug, PartialEq, Eq)]
pub struct ResolutionResult {
    /// The packages to install, each one after all that it depends on.
    pub install_order: Vec<PkgIdentifier>,
    /// The packages that were recommended and are not installed.
    pub unfulfilled_recommendations: Vec<String>,
    /// The pairs of packages that are declared to work together.
    pub compats: Vec<(String, String)>,
    /// The packages that installed packages extend.
    pub extensions: Vec<String>,
}

/// The mathematical value of a [`ResolutionResult`].
pub struct ResolutionView {
    pub install_order: Seq<PkgIdentifierView>,
    pub unfulfilled_recommendations: Seq<Seq<char>>,
    pub compats: Seq<(Seq<char>, Seq<char>)>,
    pub extensions: Seq<Seq<char>>,
}

impl View for ResolutionResult {
    type V = ResolutionView;

    open spec fn view(&self) -> ResolutionView {
        ResolutionView {
            install_order: self.install_order.deep_view(),
            unfulfilled_recommendations: self.unfulfilled_recommendations.deep_view(),
            compats: self.compats.deep_view(),
            extensions: self.extensions.deep_view(),
        }
    }
}

/// The index of the first package from index `from` on that is called
/// `name`.
pub open spec fn find_package(packages: Seq<PackageView>, name: Seq<char>, from: int) -> Option<
    int,
>
    decreases packages.len() - from,
{
    if 0 <= from < packages.len() {
        if packages[from].id.name == name {
            Some(from)
        } else {
            find_package(packages, name, from + 1)
        }
    } else {
        None
    }
}

/// The versions of the packages called `name`, in the order of the
/// packages.
pub open spec fn versions_named(packages: Seq<PackageView>, name: Seq<char>) -> Seq<Seq<char>>
    decreases packages.len(),
{
    if packages.len() == 0 {
        Seq::empty()
    } else {
        let front = versions_named(packages.drop_last(), name);
        if packages.last().id.name == name {
            front.push(packages.last().id.version)
        } else {
            front
        }
    }
}

/// The index of the first package from index `from` on that is called
/// `name` and has a version that `pattern` admits among `versions`.
pub open spec fn find_version(
    packages: Seq<PackageView>,
    name: Seq<char>,
    pattern: VersionPatternView,
    versions: Seq<Seq<char>>,
    from: int,
) -> Option<int>
    decreases packages.len() - from,
{
    if 0 <= from < packages.len() {
        if packages[from].id.name == name && pattern.admits(packages[from].id.version, versions) {
            Some(from)
        } else {
            find_version(packages, name, pattern, versions, from + 1)
        }
    } else {
        None
    }
}

/// The index of the first configuration from index `from` on that asks for
/// the package called `name`.
pub open spec fn find_root(roots: Seq<PkgProfileConfigView>, name: Seq<char>, from: int) -> Option<
    int,
>
    decreases roots.len() - from,
{
    if 0 <= from < roots.len() {
        if roots[from].name == name {
            Some(from)
        } else {
            find_root(roots, name, from + 1)
        }
    } else {
        None
    }
}

/// Whether the order holds a package called `name`.
pub open spec fn in_order(order: Seq<PkgIdentifierView>, name: Seq<char>) -> bool {
    exists|i: int| 0 <= i < order.len() && (#[trigger] order[i]).name == name
}

/// The package that refuses the package called `name`, by the first
/// refusal from index `from` on.
pub open spec fn refuser(refused: Seq<(Seq<char>, Seq<char>)>, name: Seq<char>, from: int)
    -> Option<Seq<char>>
    decreases refused.len() - from,
{
    if 0 <= from < refused.len() {
        if refused[from].0 == name {
            Some(refused[from].1)
        } else {
            refuser(refused, name, from + 1)
        }
    } else {
        None
    }
}

/// The names of the alternatives of a dependency group.
pub open spec fn alternative_names(group: Seq<RequiredPackageView>) -> Seq<Seq<char>> {
    Seq::new(group.len(), |i: int| group[i].value)
}

/// What a resolution has found so far.
pub struct Progress {
    /// The packages that are resolved, each one after all that it depends
    /// on.
    pub order: Seq<PkgIdentifierView>,
    /// The packages that are refused, each with the package that refuses
    /// it.
    pub refused: Seq<(Seq<char>, Seq<char>)>,
    /// The packages that resolved packages recommend.
    pub recommended: Seq<Seq<char>>,
    pub compats: Seq<(Seq<char>, Seq<char>)>,
    pub extensions: Seq<Seq<char>>,
}

impl Progress {
    /// Nothing found yet.
    pub open spec fn empty() -> Progress {
        Progress {
            order: Seq::empty(),
            refused: Seq::empty(),
            recommended: Seq::empty(),
            compats: Seq::empty(),
            extensions: Seq::empty(),
        }
    }

    /// The result that the resolution ends with: of the recommended
    /// packages, those that are not installed are reported.
    pub open spec fn result(self) -> ResolutionView {
        ResolutionView {
            install_order: self.order,
            unfulfilled_recommendations: self.recommended.filter(
                |name: Seq<char>| !in_order(self.order, name),
            ),
            compats: self.compats,
            extensions: self.extensions,
        }
    }
}

/// What a resolution is made from.
pub struct ResolveInput {
    /// The packages that are known.
    pub packages: Seq<PackageView>,
    /// The packages that the user configured, in the order in which they
    /// are resolved.
    pub roots: Seq<PkgProfileConfigView>,
    pub constants: EvalConstantsView,
    /// The parameters that packages are evaluated with unless the user
    /// configured them.
    pub default_params: EvalParametersView,
}

impl ResolveInput {
    /// The names of the packages that are known.
    pub open spec fn names(self) -> Seq<Seq<char>> {
        Seq::new(self.packages.len(), |i: int| self.packages[i].id.name)
    }

    /// The index of the package that stands for the name `name`: where the
    /// user configured a package of this name, the first package of the name
    /// whose version the user asks for; else the first package of the name.
    pub open spec fn select(self, name: Seq<char>) -> Option<int> {
        match find_root(self.roots, name, 0) {
            Some(root) => find_version(
                self.packages,
                name,
                self.roots[root].version,
                versions_named(self.packages, name),
                0,
            ),
            None => find_package(self.packages, name, 0),
        }
    }

    /// Whether a package called `name` is known, in a version that the
    /// user asks for.
    pub open spec fn knows(self, name: Seq<char>) -> bool {
        self.select(name) is Some
    }

    /// Whether the user configured a package called `name`.
    pub open spec fn is_root(self, name: Seq<char>) -> bool {
        find_root(self.roots, name, 0) is Some
    }

    /// The input that the package with index `index` is evaluated with:
    /// the defaults, overridden by the configuration of the user where
    /// there is one for the package.
    pub open spec fn input_for(self, index: int) -> Result<EvalInputView, ResolutionErrorView> {
        let package = self.packages[index];
        match find_root(self.roots, package.id.name, 0) {
            Some(root) => match self.roots[root].params_for(
                package.properties,
                self.default_params,
            ) {
                Ok(params) => Ok(EvalInputView { constants: self.constants, params }),
                Err(kind) => Err(
                    ResolutionErrorView::Eval(
                        EvalErrorView { kind, package: package.id, pos: None },
                    ),
                ),
            },
            None => Ok(EvalInputView { constants: self.constants, params: self.default_params }),
        }
    }

    /// The relations of the package with index `index`.
    pub open spec fn relations_of(self, index: int) -> Result<RelationsView, ResolutionErrorView> {
        match self.input_for(index) {
            Ok(input) => match self.packages[index].relations(input) {
                Ok(relations) => Ok(relations),
                Err(e) => Err(ResolutionErrorView::Eval(e)),
            },
            Err(e) => Err(e),
        }
    }

    /// Whether an alternative of a dependency group can be had: its package
    /// is known and, where the dependency is explicit, configured by the
    /// user.
    pub open spec fn satisfiable(self, alternative: RequiredPackageView) -> bool {
        self.knows(alternative.value) && (alternative.explicit ==> self.is_root(alternative.value))
    }

    /// The member that is chosen of a dependency group: the first
    /// alternative from index `from` on that can be had.
    pub open spec fn chosen_member(self, group: Seq<RequiredPackageView>, from: int) -> Option<Seq<char>>
        decreases group.len() - from,
    {
        if 0 <= from < group.len() {
            if self.satisfiable(group[from]) {
                Some(group[from].value)
            } else {
                self.chosen_member(group, from + 1)
            }
        } else {
            None
        }
    }

    /// The chosen members of the dependency groups of the package called
    /// `package`, or the error of the first group that has none.
    pub open spec fn choose_all(self, groups: Seq<Seq<RequiredPackageView>>, package: Seq<char>)
        -> Result<Seq<Seq<char>>, ResolutionErrorView>
        decreases groups.len(),
    {
        if groups.len() == 0 {
            Ok(Seq::empty())
        } else {
            match self.chosen_member(groups[0], 0) {
                Some(member) => prepend(
                    seq![member],
                    self.choose_all(groups.drop_first(), package),
                ),
                None => Err(
                    ResolutionErrorView::UnsatisfiableGroup {
                        package,
                        alternatives: alternative_names(groups[0]),
                    },
                ),
            }
        }
    }

    /// The packages that the package called `package` needs: the chosen
    /// members of its dependency groups and then its bundled packages.
    pub open spec fn children(self, relations: RelationsView, package: Seq<char>) -> Result<
        Seq<Seq<char>>,
        ResolutionErrorView,
    > {
        match self.choose_all(relations.deps, package) {
            Ok(chosen) => Ok(chosen + relations.bundled),
            Err(e) => Err(e),
        }
    }

    /// Whether `path` can be the packages that are being resolved, each
    /// one needed by the one before it: they are known and no two are the
    /// same.
    pub open spec fn path_valid(self, path: Seq<Seq<char>>) -> bool {
        &&& path.no_duplicates()
        &&& forall|i: int| 0 <= i < path.len() ==> self.knows(#[trigger] path[i])
    }

    /// Records that the package called `by` refuses the packages
    /// `conflicts` from index `from` on. A refused package that is resolved
    /// or being resolved is a conflict.
    pub open spec fn refuse_all(
        self,
        conflicts: Seq<Seq<char>>,
        from: int,
        by: Seq<char>,
        path: Seq<Seq<char>>,
        progress: Progress,
    ) -> Result<Progress, ResolutionErrorView>
        decreases conflicts.len() - from,
    {
        if 0 <= from < conflicts.len() {
            let refused = conflicts[from];
            if in_order(progress.order, refused) || path.contains(refused) {
                Err(ResolutionErrorView::Conflict { package: refused, refused_by: by })
            } else {
                self.refuse_all(
                    conflicts,
                    from + 1,
                    by,
                    path,
                    Progress { refused: progress.refused.push((refused, by)), ..progress },
                )
            }
        } else {
            Ok(progress)
        }
    }

    /// Resolves the package called `name`, which the last package of `path`
    /// needs.
    ///
    /// A package that is resolved already is reused. A package that is
    /// being resolved is a cycle. Else the package has to be known and must
    /// not be refused; it is evaluated, its refusals are recorded, and the
    /// packages that it needs are resolved before it joins the order.
    pub open spec fn visit(self, name: Seq<char>, path: Seq<Seq<char>>, progress: Progress)
        -> Result<Progress, ResolutionErrorView>
        decreases self.packages.len() - path.len(), 0nat,
        when self.path_valid(path)
    {
        if in_order(progress.order, name) {
            Ok(progress)
        } else if path.contains(name) {
            Err(ResolutionErrorView::Cycle { package: name, required_by: path.last() })
        } else {
            match self.select(name) {
                None => Err(
                    ResolutionErrorView::MissingPackage {
                        package: name,
                        bundled_by: if path.len() > 0 {
                            Some(path.last())
                        } else {
                            None
                        },
                    },
                ),
                Some(index) => match refuser(progress.refused, name, 0) {
                    Some(by) => Err(
                        ResolutionErrorView::Conflict { package: name, refused_by: by },
                    ),
                    None => match self.relations_of(index) {
                        Err(e) => Err(e),
                        Ok(relations) => match self.refuse_all(
                            relations.conflicts,
                            0,
                            name,
                            path.push(name),
                            progress,
                        ) {
                            Err(e) => Err(e),
                            Ok(refusing) => match self.children(relations, name) {
                                Err(e) => Err(e),
                                Ok(children) => {
                                    proof {
                                        self.lemma_path_extends(path, name);
                                    }
                                    match self.visit_all(children, 0, path.push(name), refusing) {
                                        Err(e) => Err(e),
                                        Ok(resolved) => Ok(
                                            Progress {
                                                order: resolved.order.push(self.packages[index].id),
                                                recommended: resolved.recommended
                                                    + relations.recommendations,
                                                compats: resolved.compats + relations.compats,
                                                extensions: resolved.extensions
                                                    + relations.extensions,
                                                ..resolved
                                            },
                                        ),
                                    }
                                },
                            },
                        },
                    },
                },
            }
        }
    }

    /// Resolves the packages called `names` from index `from` on, in their
    /// order, all of which the last package of `path` needs.
    pub open spec fn visit_all(
        self,
        names: Seq<Seq<char>>,
        from: int,
        path: Seq<Seq<char>>,
        progress: Progress,
    ) -> Result<Progress, ResolutionErrorView>
        decreases self.packages.len() - path.len(), names.len() - from,
        when self.path_valid(path)
    {
        if 0 <= from < names.len() {
            match self.visit(names[from], path, progress) {
                Err(e) => Err(e),
                Ok(next) => self.visit_all(names, from + 1, path, next),
            }
        } else {
            Ok(progress)
        }
    }

    /// The names of the packages that the user configured.
    pub open spec fn root_names(self) -> Seq<Seq<char>> {
        Seq::new(self.roots.len(), |i: int| self.roots[i].name)
    }

    /// The result of the resolution.
    pub open spec fn resolve(self) -> Result<ResolutionView, ResolutionErrorView> {
        match self.visit_all(self.root_names(), 0, Seq::empty(), Progress::empty()) {
            Ok(progress) => Ok(progress.result()),
            Err(e) => Err(e),
        }
    }

    /// A package is found at an index within the packages, under its name.
    pub proof fn lemma_find_package(self, name: Seq<char>, from: int)
        requires
            0 <= from,
        ensures
            match find_package(self.packages, name, from) {
                Some(index) => from <= index < self.packages.len() && self.packages[index].id.name
                    == name,
                None => true,
            },
        decreases self.packages.len() - from,
    {
        if from < self.packages.len() && self.packages[from].id.name != name {
            self.lemma_find_package(name, from + 1);
        }
    }

    /// A version of a package is found at an index within the packages,
    /// under the name of the package.
    pub proof fn lemma_find_version(
        self,
        name: Seq<char>,
        pattern: VersionPatternView,
        versions: Seq<Seq<char>>,
        from: int,
    )
        requires
            0 <= from,
        ensures
            match find_version(self.packages, name, pattern, versions, from) {
                Some(index) => from <= index < self.packages.len() && self.packages[index].id.name
                    == name && pattern.admits(self.packages[index].id.version, versions),
                None => true,
            },
        decreases self.packages.len() - from,
    {
        if from < self.packages.len() && !(self.packages[from].id.name == name && pattern.admits(
            self.packages[from].id.version,
            versions,
        )) {
            self.lemma_find_version(name, pattern, versions, from + 1);
        }
    }

    /// The package that stands for a name is one of the packages, and is
    /// called by the name.
    pub proof fn lemma_select(self, name: Seq<char>)
        ensures
            self.select(name) matches Some(index) ==> 0 <= index < self.packages.len()
                && self.packages[index].id.name == name,
    {
        self.lemma_find_package(name, 0);
        if let Some(root) = find_root(self.roots, name, 0) {
            self.lemma_find_version(
                name,
                self.roots[root].version,
                versions_named(self.packages, name),
                0,
            );
        }
    }

    /// No more packages can be in resolution at once than are known.
    pub proof fn lemma_path_bounded(self, path: Seq<Seq<char>>)
        requires
            self.path_valid(path),
        ensures
            path.len() <= self.packages.len(),
    {
        let names = self.names();
        assert(path.to_set().subset_of(names.to_set())) by {
            assert forall|name: Seq<char>| path.to_set().contains(name) implies names.to_set().contains(
                name,
            ) by {
                let i = choose|i: int| 0 <= i < path.len() && path[i] == name;
                assert(self.knows(path[i]));
                self.lemma_select(name);
                let index = self.select(name)->0;
                assert(names[index] == name);
            }
        }
        vstd::seq_lib::seq_to_set_is_finite(names);
        lemma_len_subset(path.to_set(), names.to_set());
        path.unique_seq_to_set();
        names.lemma_cardinality_of_set();
    }

    /// A known package that is not being resolved can be resolved next.
    pub proof fn lemma_path_extends(self, path: Seq<Seq<char>>, name: Seq<char>)
        requires
            self.path_valid(path),
            !path.contains(name),
            self.knows(name),
        ensures
            self.path_valid(path.push(name)),
            path.len() < self.packages.len(),
    {
        let longer = path.push(name);
        assert forall|i: int, j: int| 0 <= i < longer.len() && 0 <= j < longer.len() && i
            != j implies longer[i] != longer[j] by {
            if i < path.len() && j < path.len() {
                assert(path[i] != path[j]);
            } else if i < path.len() {
                assert(path.contains(path[i]));
            } else {
                assert(path.contains(path[j]));
            }
        }
        assert forall|i: int| 0 <= i < longer.len() implies self.knows(#[trigger] longer[i]) by {
            if i < path.len() {
                assert(longer[i] == path[i]);
            }
        }
        self.lemma_path_bounded(longer);
    }
}

/// The packages that are known, with their contents and properties.
#[derive(Debug)]
pub struct PkgRegistry {
    pub packages: Vec<Package>,
}

impl PkgRegistry {
    /// A registry that knows no package.
    pub fn new() -> (r: Self)
        ensures
            r.packages.deep_view() == Seq::<PackageView>::empty(),
    {
        let r = PkgRegistry { packages: Vec::new() };
        assert(r.packages.deep_view() =~= Seq::empty());
        r
    }

    /// Makes a package known. An earlier package of the same name stays the
    /// one that is found.
    pub fn insert(&mut self, package: Package)
        ensures
            final(self).packages.deep_view() == old(self).packages.deep_view().push(package@),
    {
        let ghost before = self.packages;
        self.packages.push(package);
        proof {
            lemma_push_deep_view(before, self.packages, package);
        }
    }

    /// The index of the package called `name`.
    pub fn find(&self, name: &str) -> (r: Option<usize>)
        ensures
            match r {
                Some(index) => find_package(self.packages.deep_view(), name@, 0) == Some(
                    index as int,
                ) && index < self.packages.len(),
                None => find_package(self.packages.deep_view(), name@, 0) is None,
            },
    {
        let ghost all = self.packages.deep_view();
        let mut i: usize = 0;
        while i < self.packages.len()
            invariant
                i <= self.packages.len(),
                all == self.packages.deep_view(),
                find_package(all, name@, 0) == find_package(all, name@, i as int),
            decreases self.packages.len() - i,
        {
            assert(all[i as int] == self.packages[i as int]@);
            if str_eq(self.packages[i].id.name.as_str(), name) {
                return Some(i);
            }
            i += 1;
        }
        None
    }

    /// Whether a package called `name` is known.
    pub fn contains(&self, name: &str) -> (r: bool)
        ensures
            r == (find_package(self.packages.deep_view(), name@, 0) is Some),
    {
        self.find(name).is_some()
    }
}

fn versions_of(packages: &Vec<Package>, name: &str) -> (r: Vec<String>)
    ensures
        r.deep_view() == versions_named(packages.deep_view(), name@),
{
    let ghost all = packages.deep_view();
    let mut out: Vec<String> = Vec::new();
    let mut i: usize = 0;
    assert(all.take(0) =~= Seq::empty());
    assert(out.deep_view() =~= Seq::empty());
    while i < packages.len()
        invariant
            i <= packages.len(),
            all == packages.deep_view(),
            out.deep_view() == versions_named(all.take(i as int), name@),
        decreases packages.len() - i,
    {
        proof {
            assert(all.take(i + 1).drop_last() =~= all.take(i as int));
            assert(all.take(i + 1).last() == packages[i as int]@);
        }
        if str_eq(packages[i].id.name.as_str(), name) {
            let ghost before = out;
            let version = packages[i].id.version.clone();
            out.push(version);
            proof {
                lemma_push_deep_view(before, out, version);
            }
        }
        i += 1;
    }
    assert(all.take(packages.len() as int) =~= all);
    out
}

fn find_version_exec(
    packages: &Vec<Package>,
    name: &str,
    pattern: &VersionPattern,
    versions: &Vec<String>,
) -> (r: Option<usize>)
    ensures
        match r {
            Some(index) => find_version(
                packages.deep_view(),
                name@,
                pattern@,
                versions.deep_view(),
                0,
            ) == Some(index as int) && index < packages.len(),
            None => find_version(packages.deep_view(), name@, pattern@, versions.deep_view(), 0)
                is None,
        },
{
    let ghost all = packages.deep_view();
    let mut i: usize = 0;
    while i < packages.len()
        invariant
            i <= packages.len(),
            all == packages.deep_view(),
            find_version(all, name@, pattern@, versions.deep_view(), 0) == find_version(
                all,
                name@,
                pattern@,
                versions.deep_view(),
                i as int,
            ),
        decreases packages.len() - i,
    {
        assert(all[i as int] == packages[i as int]@);
        if str_eq(packages[i].id.name.as_str(), name) && pattern.matches_single(
            packages[i].id.version.as_str(),
            versions,
        ) {
            return Some(i);
        }
        i += 1;
    }
    None
}

fn find_root_exec(roots: &Vec<PkgProfileConfig>, name: &str) -> (r: Option<usize>)
    ensures
        match r {
            Some(index) => find_root(roots.deep_view(), name@, 0) == Some(index as int) && index
                < roots.len(),
            None => find_root(roots.deep_view(), name@, 0) is None,
        },
{
    let ghost all = roots.deep_view();
    let mut i: usize = 0;
    while i < roots.len()
        invariant
            i <= roots.len(),
            all == roots.deep_view(),
            find_root(all, name@, 0) == find_root(all, name@, i as int),
        decreases roots.len() - i,
    {
        assert(all[i as int] == roots[i as int]@);
        if str_eq(roots[i].req.name.as_str(), name) {
            return Some(i);
        }
        i += 1;
    }
    None
}

fn in_order_exec(order: &Vec<PkgIdentifier>, name: &str) -> (r: bool)
    ensures
        r == in_order(order.deep_view(), name@),
{
    let mut i: usize = 0;
    while i < order.len()
        invariant
            i <= order.len(),
            forall|j: int| 0 <= j < i ==> (#[trigger] order.deep_view()[j]).name != name@,
        decreases order.len() - i,
    {
        assert(order.deep_view()[i as int] == order[i as int]@);
        if str_eq(order[i].name.as_str(), name) {
            return true;
        }
        i += 1;
    }
    false
}

fn refuser_exec(refused: &Vec<(String, String)>, name: &str) -> (r: Option<String>)
    ensures
        r.deep_view() == refuser(refused.deep_view(), name@, 0),
{
    let ghost all = refused.deep_view();
    let mut i: usize = 0;
    while i < refused.len()
        invariant
            i <= refused.len(),
            all == refused.deep_view(),
            refuser(all, name@, 0) == refuser(all, name@, i as int),
        decreases refused.len() - i,
    {
        assert(all[i as int] == (refused[i as int].0@, refused[i as int].1@));
        if str_eq(refused[i].0.as_str(), name) {
            return Some(refused[i].1.clone());
        }
        i += 1;
    }
    None
}

fn names_of(group: &Vec<RequiredPackage>) -> (r: Vec<String>)
    ensures
        r.deep_view() == alternative_names(group.deep_view()),
{
    let mut out: Vec<String> = Vec::new();
    let mut i: usize = 0;
    while i < group.len()
        invariant
            i <= group.len(),
            out.len() == i,
            forall|j: int| 0 <= j < i ==> #[trigger] out.deep_view()[j] == group.deep_view()[j].value,
        decreases group.len() - i,
    {
        let ghost before = out;
        let item = group[i].value.clone();
        out.push(item);
        proof {
            lemma_push_deep_view(before, out, item);
            assert(group.deep_view()[i as int] == group[i as int]@);
            assert forall|j: int| 0 <= j < i + 1 implies #[trigger] out.deep_view()[j]
                == group.deep_view()[j].value by {
                if j < i {
                    assert(out.deep_view()[j] == before.deep_view()[j]);
                }
            }
        }
        i += 1;
    }
    assert(out.deep_view() =~= alternative_names(group.deep_view()));
    out
}

/// The state of a resolution.
struct Resolving {
    order: Vec<PkgIdentifier>,
    refused: Vec<(String, String)>,
    recommended: Vec<String>,
    compats: Vec<(String, String)>,
    extensions: Vec<String>,
}

impl View for Resolving {
    type V = Progress;

    closed spec fn view(&self) -> Progress {
        Progress {
            order: self.order.deep_view(),
            refused: self.refused.deep_view(),
            recommended: self.recommended.deep_view(),
            compats: self.compats.deep_view(),
            extensions: self.extensions.deep_view(),
        }
    }
}

/// What a resolution reads.
struct Resolver<'a> {
    packages: &'a PkgRegistry,
    roots: &'a Vec<PkgProfileConfig>,
    constants: &'a EvalConstants,
    default_params: &'a EvalParameters,
}

impl<'a> View for Resolver<'a> {
    type V = ResolveInput;

    closed spec fn view(&self) -> ResolveInput {
        ResolveInput {
            packages: self.packages.packages.deep_view(),
            roots: self.roots.deep_view(),
            constants: self.constants@,
            default_params: self.default_params@,
        }
    }
}

impl<'a> Resolver<'a> {
    /// The index of the package that stands for a name.
    fn select(&self, name: &str) -> (r: Option<usize>)
        ensures
            match r {
                Some(index) => self@.select(name@) == Some(index as int) && index
                    < self.packages.packages.len(),
                None => self@.select(name@) is None,
            },
    {
        match find_root_exec(self.roots, name) {
            Some(root) => {
                assert(self@.roots[root as int] == self.roots[root as int]@);
                let versions = versions_of(&self.packages.packages, name);
                find_version_exec(
                    &self.packages.packages,
                    name,
                    &self.roots[root].req.version,
                    &versions,
                )
            },
            None => self.packages.find(name),
        }
    }

    /// Evaluates the relations of the package with the given index.
    fn relations_of(&self, index: usize) -> (r: Result<EvalRelationsResult, ResolutionError>)
        requires
            index < self.packages.packages.len(),
        ensures
            match self@.relations_of(index as int) {
                Ok(relations) => r matches Ok(got) && got@ == relations,
                Err(e) => r matches Err(err) && err@ == e,
            },
    {
        let package = &self.packages.packages[index];
        assert(self@.packages[index as int] == package@);
        let mut params = self.default_params.clone();
        match find_root_exec(self.roots, package.id.name.as_str()) {
            Some(root) => {
                assert(self@.roots[root as int] == self.roots[root as int]@);
                match self.roots[root].override_configured_package_input(
                    &package.properties,
                    &mut params,
                ) {
                    Ok(()) => {},
                    Err(kind) => {
                        return Err(
                            ResolutionError::Eval(
                                EvalError { kind, package: package.id.clone(), pos: None },
                            ),
                        );
                    },
                }
            },
            None => {},
        }
        let input = EvalInput { constants: self.constants, params };
        match package.eval_package_relations(input) {
            Ok(relations) => Ok(relations),
            Err(e) => Err(ResolutionError::Eval(e)),
        }
    }

    fn satisfiable(&self, alternative: &RequiredPackage) -> (r: bool)
        ensures
            r == self@.satisfiable(alternative@),
    {
        self.select(alternative.value.as_str()).is_some() && (!alternative.explicit
            || find_root_exec(self.roots, alternative.value.as_str()).is_some())
    }

    fn chosen_member(&self, group: &Vec<RequiredPackage>) -> (r: Option<String>)
        ensures
            r.deep_view() == self@.chosen_member(group.deep_view(), 0),
    {
        let ghost all = group.deep_view();
        let mut i: usize = 0;
        while i < group.len()
            invariant
                i <= group.len(),
                all == group.deep_view(),
                self@.chosen_member(all, 0) == self@.chosen_member(all, i as int),
            decreases group.len() - i,
        {
            assert(all[i as int] == group[i as int]@);
            if self.satisfiable(&group[i]) {
                return Some(group[i].value.clone());
            }
            i += 1;
        }
        None
    }

    fn children(&self, relations: &EvalRelationsResult, package: &str) -> (r: Result<
        Vec<String>,
        ResolutionError,
    >)
        ensures
            match self@.children(relations@, package@) {
                Ok(children) => r matches Ok(got) && got.deep_view() == children,
                Err(e) => r matches Err(err) && err@ == e,
            },
    {
        let ghost all = relations.deps.deep_view();
        let mut out: Vec<String> = Vec::new();
        let mut i: usize = 0;
        proof {
            assert(all.skip(0) =~= all);
            assert(out.deep_view() =~= Seq::empty());
            lemma_prepend_empty(self@.choose_all(all, package@));
        }
        while i < relations.deps.len()
            invariant
                i <= relations.deps.len(),
                all == relations.deps.deep_view(),
                self@.choose_all(all, package@) == prepend(
                    out.deep_view(),
                    self@.choose_all(all.skip(i as int), package@),
                ),
            decreases relations.deps.len() - i,
        {
            let ghost before = out;
            proof {
                assert(all.skip(i as int).drop_first() =~= all.skip(i + 1));
                assert(all.skip(i as int)[0] == relations.deps[i as int].deep_view());
            }
            match self.chosen_member(&relations.deps[i]) {
                Some(member) => {
                    out.push(member);
                    proof {
                        lemma_push_deep_view(before, out, member);
                        lemma_prepend_push(
                            before.deep_view(),
                            member@,
                            self@.choose_all(all.skip(i + 1), package@),
                        );
                    }
                },
                None => {
                    return Err(
                        ResolutionError::UnsatisfiableGroup {
                            package: package.to_owned(),
                            alternatives: names_of(&relations.deps[i]),
                        },
                    );
                },
            }
            i += 1;
        }
        proof {
            assert(out.deep_view() + Seq::<Seq<char>>::empty() =~= out.deep_view());
        }
        append_strings(&mut out, &relations.bundled);
        Ok(out)
    }

    fn refuse_all(
        &self,
        conflicts: &Vec<String>,
        by: &str,
        path: &Vec<String>,
        progress: &mut Resolving,
    ) -> (r: Result<(), ResolutionError>)
        ensures
            match self@.refuse_all(conflicts.deep_view(), 0, by@, path.deep_view(), old(progress)@) {
                Ok(refusing) => r is Ok && final(progress)@ == refusing,
                Err(e) => r matches Err(err) && err@ == e,
            },
    {
        let ghost all = conflicts.deep_view();
        let ghost start = progress@;
        let mut i: usize = 0;
        while i < conflicts.len()
            invariant
                i <= conflicts.len(),
                all == conflicts.deep_view(),
                start == old(progress)@,
                self@.refuse_all(all, 0, by@, path.deep_view(), start) == self@.refuse_all(
                    all,
                    i as int,
                    by@,
                    path.deep_view(),
                    progress@,
                ),
            decreases conflicts.len() - i,
        {
            assert(all[i as int] == conflicts[i as int]@);
            let refused = &conflicts[i];
            if in_order_exec(&progress.order, refused.as_str()) || crate::versions::contains(
                path,
                refused.as_str(),
            ) {
                return Err(
                    ResolutionError::Conflict {
                        package: refused.clone(),
                        refused_by: by.to_owned(),
                    },
                );
            }
            let ghost before = progress.refused;
            let item = (refused.clone(), by.to_owned());
            progress.refused.push(item);
            proof {
                lemma_push_deep_view(before, progress.refused, item);
            }
            i += 1;
        }
        Ok(())
    }

    fn visit(&self, name: &str, path: &Vec<String>, progress: &mut Resolving) -> (r: Result<
        (),
        ResolutionError,
    >)
        requires
            self@.path_valid(path.deep_view()),
        ensures
            match self@.visit(name@, path.deep_view(), old(progress)@) {
                Ok(resolved) => r is Ok && final(progress)@ == resolved,
                Err(e) => r matches Err(err) && err@ == e,
            },
        decreases self.packages.packages.len() - path.len(), 0nat,
    {
        if in_order_exec(&progress.order, name) {
            return Ok(());
        }
        if crate::versions::contains(path, name) {
            let last = path.len() - 1;
            assert(path.deep_view().last() == path[last as int]@);
            return Err(
                ResolutionError::Cycle {
                    package: name.to_owned(),
                    required_by: path[last].clone(),
                },
            );
        }
        let index = match self.select(name) {
            Some(index) => index,
            None => {
                let bundled_by = if path.len() > 0 {
                    let last = path.len() - 1;
                    assert(path.deep_view().last() == path[last as int]@);
                    Some(path[last].clone())
                } else {
                    None
                };
                return Err(
                    ResolutionError::MissingPackage { package: name.to_owned(), bundled_by },
                );
            },
        };
        if let Some(by) = refuser_exec(&progress.refused, name) {
            return Err(ResolutionError::Conflict { package: name.to_owned(), refused_by: by });
        }
        let relations = self.relations_of(index)?;
        let mut inner = clone_strings(path);
        let ghost copied = inner;
        let owned = name.to_owned();
        inner.push(owned);
        proof {
            lemma_push_deep_view(copied, inner, owned);
            self@.lemma_path_extends(path.deep_view(), name@);
        }
        self.refuse_all(&relations.conflicts, name, &inner, progress)?;
        let children = self.children(&relations, name)?;
        self.visit_all(&children, 0, &inner, progress)?;
        let ghost before = progress.order;
        let id = self.packages.packages[index].id.clone();
        progress.order.push(id);
        proof {
            lemma_push_deep_view(before, progress.order, id);
            assert(self@.packages[index as int] == self.packages.packages[index as int]@);
        }
        append_strings(&mut progress.recommended, &relations.recommendations);
        append_pairs(&mut progress.compats, &relations.compats);
        append_strings(&mut progress.extensions, &relations.extensions);
        Ok(())
    }

    fn visit_all(
        &self,
        names: &Vec<String>,
        from: usize,
        path: &Vec<String>,
        progress: &mut Resolving,
    ) -> (r: Result<(), ResolutionError>)
        requires
            self@.path_valid(path.deep_view()),
        ensures
            match self@.visit_all(names.deep_view(), from as int, path.deep_view(), old(progress)@) {
                Ok(resolved) => r is Ok && final(progress)@ == resolved,
                Err(e) => r matches Err(err) && err@ == e,
            },
        decreases self.packages.packages.len() - path.len(), names.len() - from,
    {
        if from >= names.len() {
            return Ok(());
        }
        assert(names.deep_view()[from as int] == names[from as int]@);
        self.visit(names[from].as_str(), path, progress)?;
        self.visit_all(names, from + 1, path, progress)
    }
}

fn root_names(roots: &Vec<PkgProfileConfig>) -> (r: Vec<String>)
    ensures
        r.deep_view() == Seq::new(roots.len() as nat, |i: int| roots.deep_view()[i].name),
{
    let mut out: Vec<String> = Vec::new();
    let mut i: usize = 0;
    while i < roots.len()
        invariant
            i <= roots.len(),
            out.len() == i,
            forall|j: int| 0 <= j < i ==> #[trigger] out.deep_view()[j] == roots.deep_view()[j].name,
        decreases roots.len() - i,
    {
        let ghost before = out;
        let item = roots[i].req.name.clone();
        out.push(item);
        proof {
            lemma_push_deep_view(before, out, item);
            assert(roots.deep_view()[i as int] == roots[i as int]@);
            assert forall|j: int| 0 <= j < i + 1 implies #[trigger] out.deep_view()[j]
                == roots.deep_view()[j].name by {
                if j < i {
                    assert(out.deep_view()[j] == before.deep_view()[j]);
                }
            }
        }
        i += 1;
    }
    assert(out.deep_view() =~= Seq::new(roots.len() as nat, |i: int| roots.deep_view()[i].name));
    out
}

fn unfulfilled(recommended: &Vec<String>, order: &Vec<PkgIdentifier>) -> (r: Vec<String>)
    ensures
        r.deep_view() == recommended.deep_view().filter(
            |name: Seq<char>| !in_order(order.deep_view(), name),
        ),
{
    let ghost pred = |name: Seq<char>| !in_order(order.deep_view(), name);
    let ghost all = recommended.deep_view();
    let mut out: Vec<String> = Vec::new();
    let mut i: usize = 0;
    assert(out.deep_view() =~= Seq::empty());
    assert(all.take(0) =~= Seq::empty());
    while i < recommended.len()
        invariant
            i <= recommended.len(),
            all == recommended.deep_view(),
            pred == |name: Seq<char>| !in_order(order.deep_view(), name),
            out.deep_view() == all.take(i as int).filter(pred),
        decreases recommended.len() - i,
    {
        let ghost before = out;
        proof {
            assert(all.take(i + 1) =~= all.take(i as int).push(recommended[i as int]@));
            crate::lex::lemma_filter_push(all.take(i as int), pred, recommended[i as int]@);
        }
        if !in_order_exec(order, recommended[i].as_str()) {
            let item = recommended[i].clone();
            out.push(item);
            proof {
                lemma_push_deep_view(before, out, item);
            }
        }
        i += 1;
    }
    assert(all.take(recommended.len() as int) =~= all);
    out
}

/// Resolve package dependencies.
///
/// `packages` are the packages that the user configured, `reg` the ones
/// that are known. A package is evaluated with `default_params`, overridden
/// by its configuration where the user configured it. Where the user asks
/// for versions of a package, the first known version among them is taken
/// wherever the package is needed.
///
/// The result is a function of the arguments: see
/// [`ResolveInput::resolve`]. What every result guarantees is proved in
/// [`crate::guarantees`].
pub fn resolve(
    packages: &Vec<PkgProfileConfig>,
    constants: &EvalConstants,
    default_params: EvalParameters,
    reg: &PkgRegistry,
) -> (r: Result<ResolutionResult, ResolutionError>)
    ensures
        match (ResolveInput {
            packages: reg.packages.deep_view(),
            roots: packages.deep_view(),
            constants: constants@,
            default_params: default_params@,
        }).resolve() {
            Ok(result) => r matches Ok(got) && got@ == result,
            Err(e) => r matches Err(err) && err@ == e,
        },
{
    let resolver = Resolver {
        packages: reg,
        roots: packages,
        constants,
        default_params: &default_params,
    };
    let mut progress = Resolving {
        order: Vec::new(),
        refused: Vec::new(),
        recommended: Vec::new(),
        compats: Vec::new(),
        extensions: Vec::new(),
    };
    let path: Vec<String> = Vec::new();
    proof {
        assert(progress.order.deep_view() =~= Seq::empty());
        assert(progress.refused.deep_view() =~= Seq::empty());
        assert(progress.recommended.deep_view() =~= Seq::empty());
        assert(progress.compats.deep_view() =~= Seq::empty());
        assert(progress.extensions.deep_view() =~= Seq::empty());
        assert(path.deep_view() =~= Seq::empty());
    }
    let names = root_names(packages);
    assert(names.deep_view() =~= resolver@.root_names());
    resolver.visit_all(&names, 0, &path, &mut progress)?;
    let unfulfilled_recommendations = unfulfilled(&progress.recommended, &progress.order);
    Ok(
        ResolutionResult {
            install_order: progress.order,
            unfulfilled_recommendations,
            compats: progress.compats,
            extensions: progress.extensions,
        },
    )
}

} // verus!
