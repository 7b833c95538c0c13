//! What every successful resolution guarantees: the packages to install are
//! free of conflicts, hold everything that they need, and are ordered so
//! that each package comes after all that it needs.

use vstd::prelude::*;
use crate::asset::PkgIdentifierView;
use crate::eval::RequiredPackageView;
use crate::resolve::{
    in_order, refuser, Progress, ResolutionErrorView, ResolutionView, ResolveInput,
};

verus! {

/// Whether some refusal names the package called `name`.
pub open spec fn is_refused(refused: Seq<(Seq<char>, Seq<char>)>, name: Seq<char>) -> bool {
    exists|k: int| 0 <= k < refused.len() && (#[trigger] refused[k]).0 == name
}

impl ResolveInput {
    /// Whether the package called `name` is known and can be evaluated,
    /// with a member to choose in each of its dependency groups.
    pub open spec fn evaluates(self, name: Seq<char>) -> bool {
        &&& self.select(name) matches Some(index)
        &&& self.relations_of(index) matches Ok(relations)
        &&& self.children(relations, name) is Ok
    }

    /// The packages that the package called `name` needs: the chosen
    /// members of its dependency groups and its bundled packages.
    pub open spec fn needs(self, name: Seq<char>) -> Seq<Seq<char>> {
        let index = self.select(name)->0;
        let relations = self.relations_of(index)->Ok_0;
        self.children(relations, name)->Ok_0
    }

    /// The packages that the package called `name` refuses.
    pub open spec fn refuses(self, name: Seq<char>) -> Seq<Seq<char>> {
        let index = self.select(name)->0;
        self.relations_of(index)->Ok_0.conflicts
    }

    /// Whether the package at index `i` of the order is settled: it is the
    /// known package of its name, it can be evaluated, and all that it needs
    /// comes before it.
    pub open spec fn settled(self, order: Seq<PkgIdentifierView>, i: int) -> bool {
        let name = order[i].name;
        &&& self.evaluates(name)
        &&& self.packages[self.select(name)->0].id == order[i]
        &&& forall|k: int|
            0 <= k < self.needs(name).len() ==> in_order(
                order.take(i),
                #[trigger] self.needs(name)[k],
            )
    }

    /// Whether the refusals of the package at index `i` of the order are
    /// all recorded.
    pub open spec fn recorded(self, progress: Progress, i: int) -> bool {
        let name = progress.order[i].name;
        forall|k: int|
            0 <= k < self.refuses(name).len() ==> is_refused(
                progress.refused,
                #[trigger] self.refuses(name)[k],
            )
    }

    /// What holds of a resolution at every step, where `path` are the
    /// packages that are being resolved.
    pub open spec fn consistent(self, path: Seq<Seq<char>>, progress: Progress) -> bool {
        &&& forall|i: int, j: int|
            0 <= i < j < progress.order.len() ==> (#[trigger] progress.order[i]).name
                != (#[trigger] progress.order[j]).name
        &&& forall|i: int| 0 <= i < progress.order.len() ==> #[trigger] self.settled(
            progress.order,
            i,
        )
        &&& forall|i: int| 0 <= i < progress.order.len() ==> #[trigger] self.recorded(progress, i)
        &&& forall|k: int|
            0 <= k < progress.refused.len() ==> !in_order(
                progress.order,
                (#[trigger] progress.refused[k]).0,
            ) && !path.contains(progress.refused[k].0)
        &&& forall|i: int| 0 <= i < path.len() ==> !in_order(progress.order, #[trigger] path[i])
    }
}

/// Whether `later` continues `earlier`: it has resolved the same packages
/// first and recorded the same refusals first.
pub open spec fn continues(earlier: Progress, later: Progress) -> bool {
    &&& earlier.order.is_prefix_of(later.order)
    &&& earlier.refused.is_prefix_of(later.refused)
}

proof fn lemma_in_order_prefix(
    shorter: Seq<PkgIdentifierView>,
    longer: Seq<PkgIdentifierView>,
    name: Seq<char>,
)
    requires
        shorter.is_prefix_of(longer),
        in_order(shorter, name),
    ensures
        in_order(longer, name),
{
    let i = choose|i: int| 0 <= i < shorter.len() && (#[trigger] shorter[i]).name == name;
    assert(longer[i] == shorter[i]);
}

proof fn lemma_is_refused_prefix(
    shorter: Seq<(Seq<char>, Seq<char>)>,
    longer: Seq<(Seq<char>, Seq<char>)>,
    name: Seq<char>,
)
    requires
        shorter.is_prefix_of(longer),
        is_refused(shorter, name),
    ensures
        is_refused(longer, name),
{
    let k = choose|k: int| 0 <= k < shorter.len() && (#[trigger] shorter[k]).0 == name;
    assert(longer[k] == shorter[k]);
}

proof fn lemma_refuser_none(refused: Seq<(Seq<char>, Seq<char>)>, name: Seq<char>, from: int)
    requires
        0 <= from,
        refuser(refused, name, from) is None,
    ensures
        forall|k: int| from <= k < refused.len() ==> (#[trigger] refused[k]).0 != name,
    decreases refused.len() - from,
{
    if from < refused.len() {
        lemma_refuser_none(refused, name, from + 1);
    }
}

impl ResolveInput {
    proof fn lemma_refuse_all(
        self,
        conflicts: Seq<Seq<char>>,
        from: int,
        by: Seq<char>,
        path: Seq<Seq<char>>,
        progress: Progress,
    )
        requires
            0 <= from,
            forall|k: int|
                0 <= k < progress.refused.len() ==> !in_order(
                    progress.order,
                    (#[trigger] progress.refused[k]).0,
                ) && !path.contains(progress.refused[k].0),
        ensures
            self.refuse_all(conflicts, from, by, path, progress) matches Ok(next) ==> {
                &&& next == (Progress { refused: next.refused, ..progress })
                &&& progress.refused.is_prefix_of(next.refused)
                &&& forall|k: int|
                    0 <= k < next.refused.len() ==> !in_order(
                        next.order,
                        (#[trigger] next.refused[k]).0,
                    ) && !path.contains(next.refused[k].0)
                &&& forall|k: int|
                    from <= k < conflicts.len() ==> is_refused(next.refused, #[trigger] conflicts[k])
            },
        decreases conflicts.len() - from,
    {
        if from < conflicts.len() {
            let refused = conflicts[from];
            if !(in_order(progress.order, refused) || path.contains(refused)) {
                let added = Progress { refused: progress.refused.push((refused, by)), ..progress };
                assert forall|k: int| 0 <= k < added.refused.len() implies !in_order(
                    added.order,
                    (#[trigger] added.refused[k]).0,
                ) && !path.contains(added.refused[k].0) by {
                    if k < progress.refused.len() {
                        assert(added.refused[k] == progress.refused[k]);
                    }
                }
                self.lemma_refuse_all(conflicts, from + 1, by, path, added);
                if let Ok(next) = self.refuse_all(conflicts, from + 1, by, path, added) {
                    assert(added.refused[progress.refused.len() as int].0 == refused);
                    assert(is_refused(added.refused, refused));
                    lemma_is_refused_prefix(added.refused, next.refused, refused);
                    assert forall|k: int| from <= k < conflicts.len() implies is_refused(
                        next.refused,
                        #[trigger] conflicts[k],
                    ) by {
                        if k == from {
                        }
                    }
                }
            }
        }
    }

    /// The resolution of one package keeps a resolution consistent,
    /// continues it, and leaves the package resolved.
    pub proof fn lemma_visit(self, name: Seq<char>, path: Seq<Seq<char>>, progress: Progress)
        requires
            self.path_valid(path),
            self.consistent(path, progress),
        ensures
            self.visit(name, path, progress) matches Ok(next) ==> {
                &&& self.consistent(path, next)
                &&& continues(progress, next)
                &&& in_order(next.order, name)
            },
        decreases self.packages.len() - path.len(), 0nat,
    {
        if in_order(progress.order, name) {
        } else if path.contains(name) {
        } else if let Some(index) = self.select(name) {
            self.lemma_select(name);
            if refuser(progress.refused, name, 0) is None {
                if let Ok(relations) = self.relations_of(index) {
                    let inner = path.push(name);
                    self.lemma_path_extends(path, name);
                    lemma_refuser_none(progress.refused, name, 0);
                    assert forall|k: int| 0 <= k < progress.refused.len() implies !in_order(
                        progress.order,
                        (#[trigger] progress.refused[k]).0,
                    ) && !inner.contains(progress.refused[k].0) by {
                        let refused = progress.refused[k].0;
                        if inner.contains(refused) {
                            let i = choose|i: int| 0 <= i < inner.len() && inner[i] == refused;
                            if i < path.len() {
                                assert(path.contains(refused));
                            }
                        }
                    }
                    self.lemma_refuse_all(relations.conflicts, 0, name, inner, progress);
                    if let Ok(refusing) = self.refuse_all(
                        relations.conflicts,
                        0,
                        name,
                        inner,
                        progress,
                    ) {
                        if let Ok(children) = self.children(relations, name) {
                            assert(self.consistent(inner, refusing)) by {
                                assert forall|i: int|
                                    0 <= i < refusing.order.len() implies #[trigger] self.recorded(
                                    refusing,
                                    i,
                                ) by {
                                    assert(self.recorded(progress, i));
                                    let who = progress.order[i].name;
                                    assert forall|k: int|
                                        0 <= k < self.refuses(who).len() implies is_refused(
                                        refusing.refused,
                                        #[trigger] self.refuses(who)[k],
                                    ) by {
                                        lemma_is_refused_prefix(
                                            progress.refused,
                                            refusing.refused,
                                            self.refuses(who)[k],
                                        );
                                    }
                                }
                                assert forall|i: int| 0 <= i < inner.len() implies !in_order(
                                    refusing.order,
                                    #[trigger] inner[i],
                                ) by {
                                    if i < path.len() {
                                        assert(inner[i] == path[i]);
                                    }
                                }
                                assert forall|i: int|
                                    0 <= i < refusing.order.len() implies #[trigger] self.settled(
                                    refusing.order,
                                    i,
                                ) by {
                                    assert(self.settled(progress.order, i));
                                }
                            }
                            self.lemma_visit_all(children, 0, inner, refusing);
                            if let Ok(resolved) = self.visit_all(children, 0, inner, refusing) {
                                let id = self.packages[index].id;
                                let next = Progress {
                                    order: resolved.order.push(id),
                                    recommended: resolved.recommended + relations.recommendations,
                                    compats: resolved.compats + relations.compats,
                                    extensions: resolved.extensions + relations.extensions,
                                    ..resolved
                                };
                                assert(self.visit(name, path, progress) == Ok::<
                                    Progress,
                                    crate::resolve::ResolutionErrorView,
                                >(next));
                                let n = resolved.order.len() as int;
                                assert(next.order[n] == id);
                                assert(next.order.take(n) =~= resolved.order);
                                assert(!in_order(resolved.order, name)) by {
                                    assert(inner[path.len() as int] == name);
                                }
                                // no two packages of the order have one name
                                assert forall|i: int, j: int|
                                    0 <= i < j < next.order.len() implies (
                                #[trigger] next.order[i]).name != (#[trigger] next.order[j]).name by {
                                    if j < n {
                                        assert(next.order[i] == resolved.order[i]);
                                        assert(next.order[j] == resolved.order[j]);
                                    } else {
                                        assert(next.order[i] == resolved.order[i]);
                                    }
                                }
                                // every package is settled
                                assert forall|i: int|
                                    0 <= i < next.order.len() implies #[trigger] self.settled(
                                    next.order,
                                    i,
                                ) by {
                                    if i < n {
                                        assert(self.settled(resolved.order, i));
                                        assert(next.order[i] == resolved.order[i]);
                                        assert(next.order.take(i) =~= resolved.order.take(i));
                                    } else {
                                        assert(self.needs(name) == children);
                                    }
                                }
                                // every refusal is recorded
                                assert forall|i: int|
                                    0 <= i < next.order.len() implies #[trigger] self.recorded(
                                    next,
                                    i,
                                ) by {
                                    if i < n {
                                        assert(self.recorded(resolved, i));
                                        assert(next.order[i] == resolved.order[i]);
                                    } else {
                                        assert forall|k: int|
                                            0 <= k < self.refuses(name).len() implies is_refused(
                                            next.refused,
                                            #[trigger] self.refuses(name)[k],
                                        ) by {
                                            assert(self.refuses(name) == relations.conflicts);
                                            lemma_is_refused_prefix(
                                                refusing.refused,
                                                resolved.refused,
                                                relations.conflicts[k],
                                            );
                                        }
                                    }
                                }
                                // no refused package is reached
                                assert forall|k: int|
                                    0 <= k < next.refused.len() implies !in_order(
                                    next.order,
                                    (#[trigger] next.refused[k]).0,
                                ) && !path.contains(next.refused[k].0) by {
                                    let refused = next.refused[k].0;
                                    assert(!in_order(resolved.order, refused));
                                    assert(!inner.contains(refused));
                                    assert(inner[path.len() as int] == name);
                                    if path.contains(refused) {
                                        let i = choose|i: int|
                                            0 <= i < path.len() && path[i] == refused;
                                        assert(inner[i] == refused);
                                    }
                                    if in_order(next.order, refused) {
                                        let i = choose|i: int|
                                            0 <= i < next.order.len() && (
                                            #[trigger] next.order[i]).name == refused;
                                        if i < n {
                                            assert(resolved.order[i] == next.order[i]);
                                        }
                                    }
                                }
                                // no package in resolution is resolved
                                assert forall|i: int| 0 <= i < path.len() implies !in_order(
                                    next.order,
                                    #[trigger] path[i],
                                ) by {
                                    assert(inner[i] == path[i]);
                                    assert(!in_order(resolved.order, inner[i]));
                                    assert(path.contains(path[i]));
                                    if in_order(next.order, path[i]) {
                                        let j = choose|j: int|
                                            0 <= j < next.order.len() && (
                                            #[trigger] next.order[j]).name == path[i];
                                        if j < n {
                                            assert(resolved.order[j] == next.order[j]);
                                        }
                                    }
                                }
                                assert(continues(progress, next)) by {
                                    assert(progress.order.is_prefix_of(next.order));
                                    assert(progress.refused.is_prefix_of(next.refused));
                                }
                                assert(in_order(next.order, name));
                            }
                        }
                    }
                }
            }
        }
    }

    /// The resolution of a list of packages keeps a resolution consistent,
    /// continues it, and leaves the packages resolved.
    pub proof fn lemma_visit_all(
        self,
        names: Seq<Seq<char>>,
        from: int,
        path: Seq<Seq<char>>,
        progress: Progress,
    )
        requires
            0 <= from,
            self.path_valid(path),
            self.consistent(path, progress),
        ensures
            self.visit_all(names, from, path, progress) matches Ok(next) ==> {
                &&& self.consistent(path, next)
                &&& continues(progress, next)
                &&& forall|k: int| from <= k < names.len() ==> in_order(next.order, #[trigger] names[k])
            },
        decreases self.packages.len() - path.len(), names.len() - from,
    {
        if from < names.len() {
            self.lemma_visit(names[from], path, progress);
            if let Ok(middle) = self.visit(names[from], path, progress) {
                self.lemma_visit_all(names, from + 1, path, middle);
                if let Ok(next) = self.visit_all(names, from + 1, path, middle) {
                    lemma_in_order_prefix(middle.order, next.order, names[from]);
                }
            }
        }
    }
}

impl ResolveInput {
    /// The dependency groups of the package called `name`.
    pub open spec fn groups(self, name: Seq<char>) -> Seq<Seq<RequiredPackageView>> {
        let index = self.select(name)->0;
        self.relations_of(index)->Ok_0.deps
    }

    /// The packages that the package called `name` bundles.
    pub open spec fn bundles(self, name: Seq<char>) -> Seq<Seq<char>> {
        let index = self.select(name)->0;
        self.relations_of(index)->Ok_0.bundled
    }

    /// The member that is chosen of a dependency group is one of its
    /// alternatives and can be had.
    pub proof fn lemma_chosen_member(self, group: Seq<RequiredPackageView>, from: int)
        requires
            0 <= from,
        ensures
            match self.chosen_member(group, from) {
                Some(member) => exists|a: int|
                    from <= a < group.len() && self.satisfiable(#[trigger] group[a]) && group[a].value
                        == member,
                None => forall|a: int|
                    from <= a < group.len() ==> !self.satisfiable(#[trigger] group[a]),
            },
        decreases group.len() - from,
    {
        if from < group.len() && !self.satisfiable(group[from]) {
            self.lemma_chosen_member(group, from + 1);
        }
    }

    /// The chosen members of dependency groups are one for each group, in
    /// the order of the groups; there is an error exactly where some group
    /// has no alternative that can be had.
    pub proof fn lemma_choose_all(self, groups: Seq<Seq<RequiredPackageView>>, package: Seq<char>)
        ensures
            match self.choose_all(groups, package) {
                Ok(chosen) => chosen.len() == groups.len() && forall|g: int|
                    0 <= g < groups.len() ==> self.chosen_member(#[trigger] groups[g], 0) == Some(
                        chosen[g],
                    ),
                Err(_) => exists|g: int|
                    0 <= g < groups.len() && self.chosen_member(#[trigger] groups[g], 0) is None,
            },
        decreases groups.len(),
    {
        if groups.len() > 0 {
            let rest = groups.drop_first();
            self.lemma_choose_all(rest, package);
            match self.chosen_member(groups[0], 0) {
                Some(member) => match self.choose_all(rest, package) {
                    Ok(others) => {
                        let chosen = seq![member] + others;
                        assert(self.choose_all(groups, package) == Ok::<
                            Seq<Seq<char>>,
                            ResolutionErrorView,
                        >(chosen));
                        assert forall|g: int| 0 <= g < groups.len() implies self.chosen_member(
                            #[trigger] groups[g],
                            0,
                        ) == Some(chosen[g]) by {
                            if g > 0 {
                                assert(groups[g] == rest[g - 1]);
                                assert(chosen[g] == others[g - 1]);
                            }
                        }
                    },
                    Err(_) => {
                        let g = choose|g: int|
                            0 <= g < rest.len() && self.chosen_member(#[trigger] rest[g], 0) is None;
                        assert(groups[g + 1] == rest[g]);
                    },
                },
                None => {},
            }
        }
    }

    /// A package that is refused fails the resolution with a conflict as
    /// soon as it is reached.
    pub proof fn lemma_refused_package_conflicts(
        self,
        name: Seq<char>,
        path: Seq<Seq<char>>,
        progress: Progress,
    )
        requires
            self.path_valid(path),
            !in_order(progress.order, name),
            !path.contains(name),
            self.select(name) is Some,
            refuser(progress.refused, name, 0) is Some,
        ensures
            self.visit(name, path, progress) == Err::<Progress, ResolutionErrorView>(
                ResolutionErrorView::Conflict {
                    package: name,
                    refused_by: refuser(progress.refused, name, 0)->0,
                },
            ),
    {
    }

    /// A package that refuses a package that is resolved, or that is being
    /// resolved, fails the resolution with a conflict.
    pub proof fn lemma_refusing_reached_conflicts(
        self,
        conflicts: Seq<Seq<char>>,
        from: int,
        by: Seq<char>,
        path: Seq<Seq<char>>,
        progress: Progress,
    )
        requires
            0 <= from,
            exists|k: int|
                from <= k < conflicts.len() && (in_order(progress.order, #[trigger] conflicts[k])
                    || path.contains(conflicts[k])),
        ensures
            self.refuse_all(conflicts, from, by, path, progress) matches Err(
                ResolutionErrorView::Conflict { refused_by, .. },
            ) && refused_by == by,
        decreases conflicts.len() - from,
    {
        let k = choose|k: int|
            from <= k < conflicts.len() && (in_order(progress.order, #[trigger] conflicts[k])
                || path.contains(conflicts[k]));
        let refused = conflicts[from];
        if !(in_order(progress.order, refused) || path.contains(refused)) {
            let added = Progress { refused: progress.refused.push((refused, by)), ..progress };
            assert(from < k);
            self.lemma_refusing_reached_conflicts(conflicts, from + 1, by, path, added);
        }
    }

    /// The first dependency group without an alternative that can be had
    /// fails the choice of members with the error of that group.
    pub proof fn lemma_choose_all_fails(
        self,
        groups: Seq<Seq<RequiredPackageView>>,
        package: Seq<char>,
    )
        requires
            exists|g: int|
                0 <= g < groups.len() && self.chosen_member(#[trigger] groups[g], 0) is None,
        ensures
            self.choose_all(groups, package) matches Err(
                ResolutionErrorView::UnsatisfiableGroup { package: failing, .. },
            ) && failing == package,
        decreases groups.len(),
    {
        let g = choose|g: int|
            0 <= g < groups.len() && self.chosen_member(#[trigger] groups[g], 0) is None;
        if self.chosen_member(groups[0], 0) is Some {
            let rest = groups.drop_first();
            assert(rest[g - 1] == groups[g]);
            self.lemma_choose_all_fails(rest, package);
        }
    }

    /// The resolution of a package fails where one of its dependency groups
    /// has no alternative that can be had: where the package is reached for
    /// the first time, can be evaluated and meets no conflict, the error is
    /// that of the group.
    pub proof fn lemma_unsatisfiable_group_fails(
        self,
        name: Seq<char>,
        path: Seq<Seq<char>>,
        progress: Progress,
    )
        requires
            self.path_valid(path),
            !in_order(progress.order, name),
            !path.contains(name),
            self.select(name) is Some,
            refuser(progress.refused, name, 0) is None,
            self.relations_of(self.select(name)->0) is Ok,
            self.refuse_all(self.refuses(name), 0, name, path.push(name), progress) is Ok,
            exists|g: int|
                0 <= g < self.groups(name).len() && self.chosen_member(
                    #[trigger] self.groups(name)[g],
                    0,
                ) is None,
        ensures
            self.visit(name, path, progress) matches Err(
                ResolutionErrorView::UnsatisfiableGroup { package, .. },
            ) && package == name,
    {
        self.lemma_choose_all_fails(self.groups(name), name);
    }

    /// Every successful resolution is consistent, and holds the packages
    /// that the user configured.
    pub proof fn lemma_resolution_consistent(self)
        ensures
            self.visit_all(self.root_names(), 0, Seq::empty(), Progress::empty()) matches Ok(
                progress,
            ) ==> self.consistent(Seq::empty(), progress) && forall|r: int|
                0 <= r < self.roots.len() ==> in_order(progress.order, (#[trigger] self.roots[r]).name),
    {
        let start = Progress::empty();
        let path = Seq::<Seq<char>>::empty();
        assert(self.path_valid(path));
        assert(self.consistent(path, start));
        self.lemma_visit_all(self.root_names(), 0, path, start);
        if let Ok(progress) = self.visit_all(self.root_names(), 0, path, start) {
            assert forall|r: int| 0 <= r < self.roots.len() implies in_order(
                progress.order,
                (#[trigger] self.roots[r]).name,
            ) by {
                assert(self.root_names()[r] == self.roots[r].name);
            }
        }
    }

    /// The packages of a successful resolution are ordered so that each
    /// package comes after all that it needs: the chosen member of each of
    /// its dependency groups and each package that it bundles. No package
    /// is installed twice, and every package that the user configured is
    /// installed.
    pub proof fn lemma_dependencies_come_first(self)
        ensures
            self.resolve() matches Ok(result) ==> {
                &&& forall|i: int, j: int|
                    0 <= i < j < result.install_order.len() ==> (
                    #[trigger] result.install_order[i]).name != (
                    #[trigger] result.install_order[j]).name
                &&& forall|i: int|
                    0 <= i < result.install_order.len() ==> #[trigger] self.settled(
                        result.install_order,
                        i,
                    )
                &&& forall|r: int|
                    0 <= r < self.roots.len() ==> in_order(
                        result.install_order,
                        (#[trigger] self.roots[r]).name,
                    )
            },
    {
        self.lemma_resolution_consistent();
    }

    /// Whether one of the alternatives of a dependency group is among the
    /// packages `before`.
    pub open spec fn group_satisfied(
        before: Seq<PkgIdentifierView>,
        group: Seq<RequiredPackageView>,
    ) -> bool {
        exists|a: int| 0 <= a < group.len() && in_order(before, (#[trigger] group[a]).value)
    }

    /// Whether the package at index `i` of the order is provided for: each
    /// of its dependency groups has an alternative that comes before it,
    /// and so does every package that it bundles.
    pub open spec fn provided_for(self, order: Seq<PkgIdentifierView>, i: int) -> bool {
        let name = order[i].name;
        &&& forall|g: int|
            0 <= g < self.groups(name).len() ==> Self::group_satisfied(
                order.take(i),
                #[trigger] self.groups(name)[g],
            )
        &&& forall|b: int|
            0 <= b < self.bundles(name).len() ==> in_order(
                order.take(i),
                #[trigger] self.bundles(name)[b],
            )
    }

    /// A settled package is provided for.
    pub proof fn lemma_settled_is_provided_for(self, order: Seq<PkgIdentifierView>, i: int)
        requires
            0 <= i < order.len(),
            self.settled(order, i),
        ensures
            self.provided_for(order, i),
    {
        let name = order[i].name;
        let groups = self.groups(name);
        let bundled = self.bundles(name);
        self.lemma_choose_all(groups, name);
        let chosen = self.choose_all(groups, name)->Ok_0;
        assert(self.needs(name) == chosen + bundled);
        assert forall|g: int| 0 <= g < groups.len() implies Self::group_satisfied(
            order.take(i),
            #[trigger] groups[g],
        ) by {
            self.lemma_chosen_member(groups[g], 0);
            assert(self.needs(name)[g] == chosen[g]);
            let a = choose|a: int|
                0 <= a < groups[g].len() && self.satisfiable(#[trigger] groups[g][a])
                    && groups[g][a].value == chosen[g];
            assert(in_order(order.take(i), groups[g][a].value));
        }
        assert forall|b: int| 0 <= b < bundled.len() implies in_order(
            order.take(i),
            #[trigger] bundled[b],
        ) by {
            assert(self.needs(name)[chosen.len() + b] == bundled[b]);
        }
    }

    /// In a successful resolution every dependency group of an installed
    /// package has an alternative that is installed before the package, and
    /// every package that an installed package bundles is installed before
    /// it.
    pub proof fn lemma_groups_are_satisfied(self)
        ensures
            self.resolve() matches Ok(result) ==> forall|i: int|
                0 <= i < result.install_order.len() ==> #[trigger] self.provided_for(
                    result.install_order,
                    i,
                ),
    {
        self.lemma_dependencies_come_first();
        if let Ok(result) = self.resolve() {
            let order = result.install_order;
            assert forall|i: int| 0 <= i < order.len() implies #[trigger] self.provided_for(
                order,
                i,
            ) by {
                assert(self.settled(order, i));
                self.lemma_settled_is_provided_for(order, i);
            }
        }
    }

    /// No successful resolution installs a package together with a package
    /// that it refuses.
    pub proof fn lemma_no_conflicts(self)
        ensures
            self.resolve() matches Ok(result) ==> forall|i: int, j: int|
                0 <= i < result.install_order.len() && 0 <= j < result.install_order.len()
                    ==> !self.refuses((#[trigger] result.install_order[i]).name).contains(
                    (#[trigger] result.install_order[j]).name,
                ),
    {
        self.lemma_resolution_consistent();
        if let Ok(progress) = self.visit_all(
            self.root_names(),
            0,
            Seq::empty(),
            Progress::empty(),
        ) {
            let order = progress.order;
            assert forall|i: int, j: int|
                0 <= i < order.len() && 0 <= j < order.len() implies !self.refuses(
                (#[trigger] order[i]).name,
            ).contains((#[trigger] order[j]).name) by {
                let refuses = self.refuses(order[i].name);
                let other = order[j].name;
                if refuses.contains(other) {
                    let k = choose|k: int| 0 <= k < refuses.len() && refuses[k] == other;
                    assert(self.recorded(progress, i));
                    assert(is_refused(progress.refused, refuses[k]));
                    let r = choose|r: int|
                        0 <= r < progress.refused.len() && (#[trigger] progress.refused[r]).0
                            == other;
                    assert(!in_order(order, progress.refused[r].0));
                }
            }
        }
    }

    /// No resolution succeeds that installs two packages of which one
    /// bundles a package that the other refuses, in whichever order they
    /// are reached.
    pub proof fn lemma_bundled_and_refused_conflict(
        self,
        bundler: Seq<char>,
        refuser: Seq<char>,
        package: Seq<char>,
    )
        requires
            self.resolve() matches Ok(result) && in_order(result.install_order, bundler)
                && in_order(result.install_order, refuser),
        ensures
            !(self.bundles(bundler).contains(package) && self.refuses(refuser).contains(package)),
    {
        self.lemma_groups_are_satisfied();
        self.lemma_no_conflicts();
        let order = self.resolve()->Ok_0.install_order;
        if self.bundles(bundler).contains(package) && self.refuses(refuser).contains(package) {
            let i = choose|i: int| 0 <= i < order.len() && (#[trigger] order[i]).name == bundler;
            let j = choose|j: int| 0 <= j < order.len() && (#[trigger] order[j]).name == refuser;
            let b = choose|b: int|
                0 <= b < self.bundles(bundler).len() && self.bundles(bundler)[b] == package;
            assert(self.provided_for(order, i));
            assert(in_order(order.take(i), self.bundles(bundler)[b]));
            let k = choose|k: int|
                0 <= k < order.take(i).len() && (#[trigger] order.take(i)[k]).name == package;
            assert(order[k] == order.take(i)[k]);
            assert(!self.refuses(order[j].name).contains(order[k].name));
        }
    }

    /// None of the recommendations that a successful resolution reports is
    /// installed.
    pub proof fn lemma_unfulfilled_are_not_installed(self)
        ensures
            self.resolve() matches Ok(result) ==> forall|k: int|
                0 <= k < result.unfulfilled_recommendations.len() ==> !in_order(
                    result.install_order,
                    #[trigger] result.unfulfilled_recommendations[k],
                ),
    {
        if let Ok(progress) = self.visit_all(
            self.root_names(),
            0,
            Seq::empty(),
            Progress::empty(),
        ) {
            let pred = |name: Seq<char>| !in_order(progress.order, name);
            let reported = progress.recommended.filter(pred);
            assert forall|k: int| 0 <= k < reported.len() implies !in_order(
                progress.order,
                #[trigger] reported[k],
            ) by {
                progress.recommended.lemma_filter_pred(pred, k);
            }
        }
    }
}

/// Resolution is a function of what it is made from: two resolutions of
/// the same configured packages, with the same constants, parameters and
/// known packages, give the same order of installation and report the same
/// recommendations, or fail with the same error.
pub proof fn lemma_resolution_is_deterministic(
    input: ResolveInput,
    first: Result<ResolutionView, ResolutionErrorView>,
    second: Result<ResolutionView, ResolutionErrorView>,
)
    requires
        first == input.resolve(),
        second == input.resolve(),
    ensures
        first == second,
        first matches Ok(a) ==> second matches Ok(b) && a.install_order == b.install_order
            && a.unfulfilled_recommendations == b.unfulfilled_recommendations,
{
}

} // verus!
