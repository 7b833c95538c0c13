//! Evaluation of script packages.

use vstd::prelude::*;
use crate::asset::{AssetKind, PkgIdentifier};
use crate::eval::addon::{
    are_expanded_requests, expand_local_addons, request_unexpanded, unexpanded_request,
    valid_addon, validate_addon, AddonRequest, AddonRequestView, PackageAddonOptionalHashes,
    PackageAddonOptionalHashesView,
};
use crate::eval::conditions::{
    eval_condition, get_optional_value, get_value, optional_value_text, value_text,
};
use crate::eval::{
    EvalContext, EvalData, EvalError, EvalErrorKind, EvalErrorKindView, EvalErrorView, EvalInput,
    EvalLevel, EvalPermissions, EvalState, RequiredPackage, RequiredPackageView, Routine,
    MAX_NOTICE_CHARACTERS, MAX_NOTICE_INSTRUCTIONS,
};
use crate::instruction::{
    FailReason, InstrKind, InstrKindView, Instruction, InstructionView, RequirePackage,
    RequirePackageView,
};
use crate::parse::{Block, Parsed, ParsedView, INSTALL_ROUTINE};
use crate::text::{lemma_prepend_empty, lemma_prepend_push, lemma_push_deep_view, prepend, str_eq};
use crate::value::{Value, ValueErrorView, ValueView, Vars};

verus! {

/// Result from an evaluation subfunction.
#[derive(Debug, Clone, Copy, PartialEq, Eq, Structural)]
pub struct EvalResult {
    /// Whether the evaluation of the routine is to stop.
    pub finish: bool,
}

impl EvalResult {
    /// A result that does not stop the evaluation.
    pub fn new() -> (r: Self)
        ensures
            r.finish == false,
    {
        Self { finish: false }
    }
}

impl Default for EvalResult {
    fn default() -> (r: Self)
        ensures
            r.finish == false,
    {
        Self::new()
    }
}

/// What evaluating an instruction or a block leaves.
pub struct Step {
    /// What the evaluation has gathered.
    pub state: EvalState,
    /// Whether the evaluation of the routine is to stop.
    pub finish: bool,
}

/// The alternatives of one dependency group with their values resolved, or
/// the error of the first value that cannot be.
pub open spec fn resolve_group(group: Seq<RequirePackageView>, vars: Map<Seq<char>, Seq<char>>)
    -> Result<Seq<RequiredPackageView>, EvalErrorKindView>
    decreases group.len(),
{
    if group.len() == 0 {
        Ok(Seq::empty())
    } else {
        match value_text(group[0].value, vars) {
            Ok(text) => prepend(
                seq![RequiredPackageView { value: text, explicit: group[0].explicit }],
                resolve_group(group.drop_first(), vars),
            ),
            Err(e) => Err(e),
        }
    }
}

/// The dependency groups of a `require` instruction with their values
/// resolved, or the error of the first value that cannot be.
pub open spec fn resolve_groups(
    groups: Seq<Seq<RequirePackageView>>,
    vars: Map<Seq<char>, Seq<char>>,
) -> Result<Seq<Seq<RequiredPackageView>>, EvalErrorKindView>
    decreases groups.len(),
{
    if groups.len() == 0 {
        Ok(Seq::empty())
    } else {
        match resolve_group(groups[0], vars) {
            Ok(group) => prepend(seq![group], resolve_groups(groups.drop_first(), vars)),
            Err(e) => Err(e),
        }
    }
}

/// The texts of a list of values, or the error of the first value that
/// cannot be resolved.
pub open spec fn resolve_values(values: Seq<ValueView>, vars: Map<Seq<char>, Seq<char>>) -> Result<
    Seq<Seq<char>>,
    EvalErrorKindView,
>
    decreases values.len(),
{
    if values.len() == 0 {
        Ok(Seq::empty())
    } else {
        match value_text(values[0], vars) {
            Ok(text) => prepend(seq![text], resolve_values(values.drop_first(), vars)),
            Err(e) => Err(e),
        }
    }
}

/// Whether a request for an addon with this identifier was made.
pub open spec fn has_addon(requests: Seq<AddonRequestView>, id: Seq<char>) -> bool {
    exists|i: int| 0 <= i < requests.len() && (#[trigger] requests[i]).addon.id == id
}

/// The request that an `addon` instruction makes. The values are resolved
/// and the checks are made in this order: the identifier, which no earlier
/// addon may have; the kind; the address, the path, the file name and the
/// version; the validity of the addon; its location. The path of a local
/// addon is recorded as it is written.
pub open spec fn addon_request(
    ctx: EvalContext,
    state: EvalState,
    id: ValueView,
    file_name: ValueView,
    kind: Option<AssetKind>,
    url: ValueView,
    path: ValueView,
    version: ValueView,
) -> Result<AddonRequestView, EvalErrorKindView> {
    let id = value_text(id, state.vars);
    let url = optional_value_text(url, state.vars);
    let path = optional_value_text(path, state.vars);
    let file_name = optional_value_text(file_name, state.vars);
    let version = optional_value_text(version, state.vars);
    if id is Err {
        Err(id->Err_0)
    } else if has_addon(state.addon_reqs, id->Ok_0) {
        Err(EvalErrorKindView::DuplicateAddon(id->Ok_0))
    } else if kind is None {
        Err(EvalErrorKindView::MissingAddonKind)
    } else if url is Err {
        Err(url->Err_0)
    } else if path is Err {
        Err(path->Err_0)
    } else if file_name is Err {
        Err(file_name->Err_0)
    } else if version is Err {
        Err(version->Err_0)
    } else {
        match valid_addon(
            id->Ok_0,
            kind->0,
            file_name->Ok_0,
            version->Ok_0,
            ctx.package,
            PackageAddonOptionalHashesView { sha256: None, sha512: None },
        ) {
            Err(e) => Err(e),
            Ok(addon) => unexpanded_request(addon, url->Ok_0, path->Ok_0, ctx.input.params.perms),
        }
    }
}

/// What an instruction other than `if` does to the state of an evaluation.
///
/// Relations between packages are gathered only when resolving, addons and
/// commands only when installing. A notice is refused where the evaluation
/// has gathered as many as are allowed, or where it is too long. A command
/// needs elevated permissions at either level.
pub open spec fn apply_instr(kind: InstrKindView, ctx: EvalContext, state: EvalState) -> Result<
    Step,
    EvalErrorKindView,
> {
    let resolving = ctx.level == EvalLevel::Resolve;
    let installing = ctx.level == EvalLevel::Install;
    let unchanged = Ok::<Step, EvalErrorKindView>(Step { state, finish: false });
    match kind {
        InstrKindView::SetVar(var, value) => match var {
            None => Err(EvalErrorKindView::Value(ValueErrorView::Empty)),
            Some(var) => match value_text(value, state.vars) {
                Ok(text) => Ok(
                    Step { state: EvalState { vars: state.vars.insert(var, text), ..state }, finish: false },
                ),
                Err(e) => Err(e),
            },
        },
        InstrKindView::Finish() => Ok(Step { state, finish: true }),
        InstrKindView::Fail(reason) => Err(
            EvalErrorKindView::Failed(
                match reason {
                    Some(reason) => reason,
                    None => FailReason::Unspecified,
                },
            ),
        ),
        InstrKindView::Require(groups) => if resolving {
            match resolve_groups(groups, state.vars) {
                Ok(resolved) => Ok(
                    Step { state: EvalState { deps: state.deps + resolved, ..state }, finish: false },
                ),
                Err(e) => Err(e),
            }
        } else {
            unchanged
        },
        InstrKindView::Refuse(package) => if resolving {
            match value_text(package, state.vars) {
                Ok(text) => Ok(
                    Step {
                        state: EvalState { conflicts: state.conflicts.push(text), ..state },
                        finish: false,
                    },
                ),
                Err(e) => Err(e),
            }
        } else {
            unchanged
        },
        InstrKindView::Recommend(package) => if resolving {
            match value_text(package, state.vars) {
                Ok(text) => Ok(
                    Step {
                        state: EvalState {
                            recommendations: state.recommendations.push(text),
                            ..state
                        },
                        finish: false,
                    },
                ),
                Err(e) => Err(e),
            }
        } else {
            unchanged
        },
        InstrKindView::Bundle(package) => if resolving {
            match value_text(package, state.vars) {
                Ok(text) => Ok(
                    Step {
                        state: EvalState { bundled: state.bundled.push(text), ..state },
                        finish: false,
                    },
                ),
                Err(e) => Err(e),
            }
        } else {
            unchanged
        },
        InstrKindView::Compat(package, compat) => if resolving {
            match value_text(package, state.vars) {
                Ok(package) => match value_text(compat, state.vars) {
                    Ok(compat) => Ok(
                        Step {
                            state: EvalState {
                                compats: state.compats.push((package, compat)),
                                ..state
                            },
                            finish: false,
                        },
                    ),
                    Err(e) => Err(e),
                },
                Err(e) => Err(e),
            }
        } else {
            unchanged
        },
        InstrKindView::Extend(package) => if resolving {
            match value_text(package, state.vars) {
                Ok(text) => Ok(
                    Step {
                        state: EvalState { extensions: state.extensions.push(text), ..state },
                        finish: false,
                    },
                ),
                Err(e) => Err(e),
            }
        } else {
            unchanged
        },
        InstrKindView::Notice(notice) => if state.notices.len() >= MAX_NOTICE_INSTRUCTIONS {
            Err(EvalErrorKindView::TooManyNotices)
        } else {
            match value_text(notice, state.vars) {
                Ok(text) => if text.len() > MAX_NOTICE_CHARACTERS {
                    Err(EvalErrorKindView::NoticeTooLong)
                } else {
                    Ok(
                        Step {
                            state: EvalState { notices: state.notices.push(text), ..state },
                            finish: false,
                        },
                    )
                },
                Err(e) => Err(e),
            }
        },
        InstrKindView::Cmd(command) => if ctx.input.params.perms != EvalPermissions::Elevated {
            Err(EvalErrorKindView::CommandNotPermitted)
        } else if installing {
            match resolve_values(command, state.vars) {
                Ok(texts) => Ok(
                    Step {
                        state: EvalState { commands: state.commands.push(texts), ..state },
                        finish: false,
                    },
                ),
                Err(e) => Err(e),
            }
        } else {
            unchanged
        },
        InstrKindView::Addon { id, file_name, kind, url, path, version } => if installing {
            match addon_request(ctx, state, id, file_name, kind, url, path, version) {
                Ok(request) => Ok(
                    Step {
                        state: EvalState { addon_reqs: state.addon_reqs.push(request), ..state },
                        finish: false,
                    },
                ),
                Err(e) => Err(e),
            }
        } else {
            unchanged
        },
        _ => Err(EvalErrorKindView::InvalidInstruction),
    }
}

/// How far the block of an `if` instruction is from the end of the blocks;
/// zero for every other instruction.
pub open spec fn nesting(blocks: Seq<Seq<InstructionView>>, instr: InstructionView) -> nat {
    match instr.kind {
        InstrKindView::If(_, target) => if target < blocks.len() {
            (blocks.len() - target) as nat
        } else {
            0
        },
        _ => 0,
    }
}

/// What evaluating one instruction gives.
///
/// An `if` instruction evaluates its block where its condition holds; the
/// block has to exist. Every error is that of the package that is
/// evaluated, at the position of the instruction.
pub open spec fn run_instr(
    blocks: Seq<Seq<InstructionView>>,
    instr: InstructionView,
    ctx: EvalContext,
    state: EvalState,
) -> Result<Step, EvalErrorView>
    decreases nesting(blocks, instr) + 1, 0nat,
{
    match instr.kind {
        InstrKindView::If(condition, target) => match condition.holds(ctx.input, state.vars) {
            Err(e) => Err(ctx.error(e, Some(instr.pos))),
            Ok(false) => Ok(Step { state, finish: false }),
            Ok(true) => if target < blocks.len() {
                run_block(blocks, target as int, 0, ctx, state)
            } else {
                Err(ctx.error(EvalErrorKindView::MissingBlock, Some(instr.pos)))
            },
        },
        kind => match apply_instr(kind, ctx, state) {
            Ok(step) => Ok(step),
            Err(e) => Err(ctx.error(e, Some(instr.pos))),
        },
    }
}

/// What evaluating the instructions of block `b` from index `k` on gives.
///
/// The instructions are evaluated in order until one finishes the
/// evaluation or fails. An `if` instruction whose block does not come after
/// `b` is an error.
pub open spec fn run_block(
    blocks: Seq<Seq<InstructionView>>,
    b: int,
    k: int,
    ctx: EvalContext,
    state: EvalState,
) -> Result<Step, EvalErrorView>
    decreases blocks.len() - b, blocks[b].len() - k,
{
    if 0 <= b < blocks.len() && 0 <= k < blocks[b].len() {
        let instr = blocks[b][k];
        if instr.kind matches InstrKindView::If(_, target) && target <= b {
            Err(ctx.error(EvalErrorKindView::MissingBlock, Some(instr.pos)))
        } else {
            match run_instr(blocks, instr, ctx, state) {
                Err(e) => Err(e),
                Ok(step) => if step.finish {
                    Ok(step)
                } else {
                    run_block(blocks, b, k + 1, ctx, step.state)
                },
            }
        }
    } else {
        Ok(Step { state, finish: false })
    }
}

/// What evaluating the install routine of a script gives: the state that
/// the routine leaves, or the first error.
pub open spec fn run_script(parsed: ParsedView, ctx: EvalContext) -> Result<
    EvalState,
    EvalErrorView,
> {
    match crate::parse::routine_block(parsed.routines, INSTALL_ROUTINE@) {
        Some(block) => if block < parsed.blocks.len() {
            match run_block(parsed.blocks, block as int, 0, ctx, EvalState::empty()) {
                Ok(step) => Ok(step.state),
                Err(e) => Err(e),
            }
        } else {
            Err(ctx.error(EvalErrorKindView::UnknownRoutine(INSTALL_ROUTINE@), None))
        },
        None => Err(ctx.error(EvalErrorKindView::UnknownRoutine(INSTALL_ROUTINE@), None)),
    }
}

fn resolve_group_exec(group: &Vec<RequirePackage>, vars: &Vars) -> (r: Result<
    Vec<RequiredPackage>,
    EvalErrorKind,
>)
    ensures
        match resolve_group(group.deep_view(), vars@) {
            Ok(resolved) => r matches Ok(got) && got.deep_view() == resolved,
            Err(e) => r matches Err(err) && err@ == e,
        },
{
    let ghost all = group.deep_view();
    let mut out: Vec<RequiredPackage> = Vec::new();
    let mut i: usize = 0;
    proof {
        assert(all.skip(0) =~= all);
        assert(out.deep_view() =~= Seq::empty());
        lemma_prepend_empty(resolve_group(all, vars@));
    }
    while i < group.len()
        invariant
            i <= group.len(),
            all == group.deep_view(),
            resolve_group(all, vars@) == prepend(
                out.deep_view(),
                resolve_group(all.skip(i as int), vars@),
            ),
        decreases group.len() - i,
    {
        let ghost before = out;
        proof {
            assert(all.skip(i as int).drop_first() =~= all.skip(i + 1));
            assert(all.skip(i as int)[0] == group[i as int]@);
        }
        match get_value(&group[i].value, vars) {
            Ok(text) => {
                let item = RequiredPackage { value: text, explicit: group[i].explicit };
                out.push(item);
                proof {
                    lemma_push_deep_view(before, out, item);
                    lemma_prepend_push(
                        before.deep_view(),
                        item@,
                        resolve_group(all.skip(i + 1), vars@),
                    );
                }
            },
            Err(e) => {
                return Err(e);
            },
        }
        i += 1;
    }
    proof {
        assert(out.deep_view() + Seq::<RequiredPackageView>::empty() =~= out.deep_view());
    }
    Ok(out)
}

fn append_groups(
    deps: &mut Vec<Vec<RequiredPackage>>,
    groups: &Vec<Vec<RequirePackage>>,
    vars: &Vars,
) -> (r: Result<(), EvalErrorKind>)
    ensures
        match resolve_groups(groups.deep_view(), vars@) {
            Ok(resolved) => r is Ok && final(deps).deep_view() == old(deps).deep_view() + resolved,
            Err(e) => r matches Err(err) && err@ == e,
        },
{
    let ghost all = groups.deep_view();
    let ghost start = deps.deep_view();
    let ghost done = Seq::<Seq<RequiredPackageView>>::empty();
    let mut i: usize = 0;
    proof {
        assert(all.skip(0) =~= all);
        assert(start + done =~= start);
        lemma_prepend_empty(resolve_groups(all, vars@));
    }
    while i < groups.len()
        invariant
            i <= groups.len(),
            all == groups.deep_view(),
            deps.deep_view() == start + done,
            resolve_groups(all, vars@) == prepend(done, resolve_groups(all.skip(i as int), vars@)),
        decreases groups.len() - i,
    {
        let ghost before = *deps;
        proof {
            assert(all.skip(i as int).drop_first() =~= all.skip(i + 1));
            assert(all.skip(i as int)[0] == groups[i as int].deep_view());
        }
        match resolve_group_exec(&groups[i], vars) {
            Ok(group) => {
                deps.push(group);
                proof {
                    lemma_push_deep_view(before, *deps, group);
                    lemma_prepend_push(
                        done,
                        group.deep_view(),
                        resolve_groups(all.skip(i + 1), vars@),
                    );
                    assert((start + done).push(group.deep_view()) =~= start + done.push(
                        group.deep_view(),
                    ));
                    done = done.push(group.deep_view());
                }
            },
            Err(e) => {
                return Err(e);
            },
        }
        i += 1;
    }
    proof {
        assert(done + Seq::<Seq<RequiredPackageView>>::empty() =~= done);
    }
    Ok(())
}

/// Utility function to convert a vec of values to a vec of strings.
pub fn get_value_vec(vec: &Vec<Value>, vars: &Vars) -> (r: Result<Vec<String>, EvalErrorKind>)
    ensures
        match resolve_values(vec.deep_view(), vars@) {
            Ok(texts) => r matches Ok(got) && got.deep_view() == texts,
            Err(e) => r matches Err(err) && err@ == e,
        },
{
    let ghost all = vec.deep_view();
    let mut out: Vec<String> = Vec::new();
    let mut i: usize = 0;
    proof {
        assert(all.skip(0) =~= all);
        assert(out.deep_view() =~= Seq::empty());
        lemma_prepend_empty(resolve_values(all, vars@));
    }
    while i < vec.len()
        invariant
            i <= vec.len(),
            all == vec.deep_view(),
            resolve_values(all, vars@) == prepend(
                out.deep_view(),
                resolve_values(all.skip(i as int), vars@),
            ),
        decreases vec.len() - i,
    {
        let ghost before = out;
        proof {
            assert(all.skip(i as int).drop_first() =~= all.skip(i + 1));
            assert(all.skip(i as int)[0] == vec[i as int]@);
        }
        match get_value(&vec[i], vars) {
            Ok(text) => {
                out.push(text);
                proof {
                    lemma_push_deep_view(before, out, text);
                    lemma_prepend_push(
                        before.deep_view(),
                        text@,
                        resolve_values(all.skip(i + 1), vars@),
                    );
                }
            },
            Err(e) => {
                return Err(e);
            },
        }
        i += 1;
    }
    proof {
        assert(out.deep_view() + Seq::<Seq<char>>::empty() =~= out.deep_view());
    }
    Ok(out)
}

pub(crate) fn has_addon_exec(requests: &Vec<AddonRequest>, id: &str) -> (r: bool)
    ensures
        r == has_addon(requests.deep_view(), id@),
{
    let mut i: usize = 0;
    while i < requests.len()
        invariant
            i <= requests.len(),
            forall|j: int| 0 <= j < i ==> (#[trigger] requests.deep_view()[j]).addon.id != id@,
        decreases requests.len() - i,
    {
        assert(requests.deep_view()[i as int] == requests[i as int]@);
        if str_eq(requests[i].addon.id.as_str(), id) {
            return true;
        }
        i += 1;
    }
    false
}

/// Makes the request of an `addon` instruction.
fn make_addon_request(
    eval: &EvalData,
    id: &Value,
    file_name: &Value,
    kind: &Option<AssetKind>,
    url: &Value,
    path: &Value,
    version: &Value,
) -> (r: Result<AddonRequest, EvalErrorKind>)
    ensures
        match addon_request(
            eval.context(),
            eval.state(),
            id@,
            file_name@,
            *kind,
            url@,
            path@,
            version@,
        ) {
            Ok(request) => r matches Ok(got) && got@ == request,
            Err(e) => r matches Err(err) && err@ == e,
        },
{
    let id = get_value(id, &eval.vars)?;
    if has_addon_exec(&eval.addon_reqs, id.as_str()) {
        return Err(EvalErrorKind::DuplicateAddon(id));
    }
    let kind = match kind {
        Some(kind) => *kind,
        None => {
            return Err(EvalErrorKind::MissingAddonKind);
        },
    };
    let url = get_optional_value(url, &eval.vars)?;
    let path = get_optional_value(path, &eval.vars)?;
    let file_name = get_optional_value(file_name, &eval.vars)?;
    let version = get_optional_value(version, &eval.vars)?;
    let addon = validate_addon(
        id,
        kind,
        file_name,
        version,
        eval.id.clone(),
        PackageAddonOptionalHashes::new(),
    )?;
    request_unexpanded(addon, url, path, eval.input.params.perms)
}

/// Applies an instruction other than `if` to the state of an evaluation.
fn apply(kind: &InstrKind, eval: &mut EvalData) -> (r: Result<EvalResult, EvalErrorKind>)
    requires
        !(kind@ is If),
    ensures
        final(eval).context() == old(eval).context(),
        match apply_instr(kind@, old(eval).context(), old(eval).state()) {
            Ok(step) => r matches Ok(result) && result.finish == step.finish && final(eval).state()
                == step.state,
            Err(e) => r matches Err(err) && err@ == e,
        },
{
    let mut out = EvalResult::new();
    match kind {
        InstrKind::SetVar(var, val) => {
            let var = match var {
                Some(var) => var.clone(),
                None => {
                    return Err(EvalErrorKind::Value(crate::value::ValueError::Empty));
                },
            };
            let text = get_value(val, &eval.vars)?;
            eval.vars.insert(var, text);
        },
        InstrKind::Finish() => {
            out.finish = true;
        },
        InstrKind::Fail(reason) => {
            let reason = match reason {
                Some(reason) => *reason,
                None => FailReason::Unspecified,
            };
            return Err(EvalErrorKind::Failed(reason));
        },
        InstrKind::Require(deps) => {
            if let EvalLevel::Resolve = eval.level {
                append_groups(&mut eval.deps, deps, &eval.vars)?;
            }
        },
        InstrKind::Refuse(package) => {
            if let EvalLevel::Resolve = eval.level {
                let text = get_value(package, &eval.vars)?;
                let ghost before = eval.conflicts;
                eval.conflicts.push(text);
                proof {
                    lemma_push_deep_view(before, eval.conflicts, text);
                }
            }
        },
        InstrKind::Recommend(package) => {
            if let EvalLevel::Resolve = eval.level {
                let text = get_value(package, &eval.vars)?;
                let ghost before = eval.recommendations;
                eval.recommendations.push(text);
                proof {
                    lemma_push_deep_view(before, eval.recommendations, text);
                }
            }
        },
        InstrKind::Bundle(package) => {
            if let EvalLevel::Resolve = eval.level {
                let text = get_value(package, &eval.vars)?;
                let ghost before = eval.bundled;
                eval.bundled.push(text);
                proof {
                    lemma_push_deep_view(before, eval.bundled, text);
                }
            }
        },
        InstrKind::Compat(package, compat) => {
            if let EvalLevel::Resolve = eval.level {
                let package = get_value(package, &eval.vars)?;
                let compat = get_value(compat, &eval.vars)?;
                let ghost before = eval.compats;
                eval.compats.push((package, compat));
                proof {
                    lemma_push_deep_view(before, eval.compats, (package, compat));
                }
            }
        },
        InstrKind::Extend(package) => {
            if let EvalLevel::Resolve = eval.level {
                let text = get_value(package, &eval.vars)?;
                let ghost before = eval.extensions;
                eval.extensions.push(text);
                proof {
                    lemma_push_deep_view(before, eval.extensions, text);
                }
            }
        },
        InstrKind::Notice(notice) => {
            if eval.notices.len() >= MAX_NOTICE_INSTRUCTIONS {
                return Err(EvalErrorKind::TooManyNotices);
            }
            let notice = get_value(notice, &eval.vars)?;
            if notice.as_str().unicode_len() > MAX_NOTICE_CHARACTERS {
                return Err(EvalErrorKind::NoticeTooLong);
            }
            let ghost before = eval.notices;
            eval.notices.push(notice);
            proof {
                lemma_push_deep_view(before, eval.notices, notice);
            }
        },
        InstrKind::Cmd(command) => {
            match eval.input.params.perms {
                EvalPermissions::Elevated => {},
                _ => {
                    return Err(EvalErrorKind::CommandNotPermitted);
                },
            }
            if let EvalLevel::Install = eval.level {
                let command = get_value_vec(command, &eval.vars)?;
                let ghost before = eval.commands;
                eval.commands.push(command);
                proof {
                    lemma_push_deep_view(before, eval.commands, command);
                }
            }
        },
        InstrKind::Addon { id, file_name, kind, url, path, version } => {
            if let EvalLevel::Install = eval.level {
                let request = make_addon_request(eval, id, file_name, kind, url, path, version)?;
                let ghost before = eval.addon_reqs;
                eval.addon_reqs.push(request);
                proof {
                    lemma_push_deep_view(before, eval.addon_reqs, request);
                }
            }
        },
        _ => {
            return Err(EvalErrorKind::InvalidInstruction);
        },
    }
    Ok(out)
}

/// Evaluate a block of instructions, from the instruction with index
/// `from` on.
fn eval_block(blocks: &Vec<Block>, block: usize, from: usize, eval: &mut EvalData) -> (r: Result<
    EvalResult,
    EvalError,
>)
    requires
        block < blocks.len(),
    ensures
        final(eval).context() == old(eval).context(),
        match run_block(
            blocks.deep_view(),
            block as int,
            from as int,
            old(eval).context(),
            old(eval).state(),
        ) {
            Ok(step) => r matches Ok(result) && result.finish == step.finish && final(eval).state()
                == step.state,
            Err(e) => r matches Err(err) && err@ == e,
        },
    decreases blocks.len() - block, blocks[block as int].contents.len() - from,
{
    let contents = &blocks[block].contents;
    assert(blocks.deep_view()[block as int] == contents.deep_view());
    if from >= contents.len() {
        return Ok(EvalResult::new());
    }
    let instr = &contents[from];
    assert(blocks.deep_view()[block as int][from as int] == instr@);
    if let InstrKind::If(_, target) = &instr.kind {
        if *target <= block {
            return Err(eval.error(EvalErrorKind::MissingBlock, Some(instr.pos)));
        }
    }
    let result = eval_instr(instr, eval, blocks)?;
    if result.finish {
        Ok(result)
    } else {
        eval_block(blocks, block, from + 1, eval)
    }
}

/// Evaluate an instruction.
///
/// The path of a local addon is recorded as it is written; it is expanded
/// once the whole routine has run.
pub fn eval_instr(instr: &Instruction, eval: &mut EvalData, blocks: &Vec<Block>) -> (r: Result<
    EvalResult,
    EvalError,
>)
    ensures
        final(eval).context() == old(eval).context(),
        match run_instr(blocks.deep_view(), instr@, old(eval).context(), old(eval).state()) {
            Ok(step) => r matches Ok(result) && result.finish == step.finish && final(eval).state()
                == step.state,
            Err(e) => r matches Err(err) && err@ == e,
        },
    decreases nesting(blocks.deep_view(), instr@) + 1, 0nat,
{
    match &instr.kind {
        InstrKind::If(condition, block) => {
            match eval_condition(&condition.kind, eval) {
                Err(e) => Err(eval.error(e, Some(instr.pos))),
                Ok(false) => Ok(EvalResult::new()),
                Ok(true) => {
                    if *block < blocks.len() {
                        eval_block(blocks, *block, 0, eval)
                    } else {
                        Err(eval.error(EvalErrorKind::MissingBlock, Some(instr.pos)))
                    }
                },
            }
        },
        kind => match apply(kind, eval) {
            Ok(result) => Ok(result),
            Err(e) => Err(eval.error(e, Some(instr.pos))),
        },
    }
}

/// Whether `after` is the state `before` with the paths of local addons
/// expanded.
pub open spec fn is_expanded_state(before: EvalState, after: EvalState) -> bool {
    &&& are_expanded_requests(before.addon_reqs, after.addon_reqs)
    &&& after == (EvalState { addon_reqs: after.addon_reqs, ..before })
}

/// Evaluate a script package.
///
/// The install routine is evaluated at the level of `routine`. Once it has
/// run, a leading `~` in the paths of local addons is expanded.
pub fn eval_script_package<'a>(
    pkg_id: PkgIdentifier,
    parsed: &Parsed,
    routine: Routine,
    input: EvalInput<'a>,
) -> (r: Result<EvalData<'a>, EvalError>)
    ensures
        match run_script(
            parsed@,
            EvalContext { input: input@, package: pkg_id@, level: routine.level() },
        ) {
            Ok(state) => r matches Ok(eval) && eval.context() == (EvalContext {
                input: input@,
                package: pkg_id@,
                level: routine.level(),
            }) && is_expanded_state(state, eval.state()),
            Err(e) => r matches Err(err) && err@ == e,
        },
{
    let routine_name = routine.get_routine_name();
    let mut eval = EvalData::new(input, pkg_id, &routine);
    let block = match parsed.get_routine(routine_name.as_str()) {
        Some(block) => block,
        None => {
            return Err(eval.error(EvalErrorKind::UnknownRoutine(routine_name), None));
        },
    };
    if block >= parsed.blocks.len() {
        return Err(eval.error(EvalErrorKind::UnknownRoutine(routine_name), None));
    }
    eval_block(&parsed.blocks, block, 0, &mut eval)?;
    let expanded = expand_local_addons(&eval.addon_reqs);
    eval.addon_reqs = expanded;
    Ok(eval)
}

/// Whether notices are within the limits: no more than are allowed, and
/// none longer than is allowed.
pub open spec fn notices_within_limits(notices: Seq<Seq<char>>) -> bool {
    &&& notices.len() <= MAX_NOTICE_INSTRUCTIONS
    &&& forall|i: int| 0 <= i < notices.len() ==> (#[trigger] notices[i]).len() <= MAX_NOTICE_CHARACTERS
}

/// A notice fails the evaluation where as many notices as are allowed were
/// gathered before it, and where it is too long.
pub proof fn lemma_notice_limits(notice: ValueView, ctx: EvalContext, state: EvalState)
    ensures
        state.notices.len() >= MAX_NOTICE_INSTRUCTIONS ==> apply_instr(
            InstrKindView::Notice(notice),
            ctx,
            state,
        ) == Err::<Step, EvalErrorKindView>(EvalErrorKindView::TooManyNotices),
        value_text(notice, state.vars) matches Ok(text) && text.len() > MAX_NOTICE_CHARACTERS
            ==> apply_instr(InstrKindView::Notice(notice), ctx, state) is Err,
        value_text(notice, state.vars) matches Ok(text) && text.len() > MAX_NOTICE_CHARACTERS
            && state.notices.len() < MAX_NOTICE_INSTRUCTIONS ==> apply_instr(
            InstrKindView::Notice(notice),
            ctx,
            state,
        ) == Err::<Step, EvalErrorKindView>(EvalErrorKindView::NoticeTooLong),
{
}

/// No instruction takes the notices beyond their limits.
pub proof fn lemma_instr_keeps_notice_limits(
    blocks: Seq<Seq<InstructionView>>,
    instr: InstructionView,
    ctx: EvalContext,
    state: EvalState,
)
    requires
        notices_within_limits(state.notices),
    ensures
        run_instr(blocks, instr, ctx, state) matches Ok(step) ==> notices_within_limits(
            step.state.notices,
        ),
    decreases nesting(blocks, instr) + 1, 0nat,
{
    match instr.kind {
        InstrKindView::If(condition, target) => {
            if condition.holds(ctx.input, state.vars) == Ok::<bool, EvalErrorKindView>(true)
                && target < blocks.len() {
                lemma_block_keeps_notice_limits(blocks, target as int, 0, ctx, state);
            }
        },
        InstrKindView::Notice(notice) => {
            if let Ok(step) = apply_instr(instr.kind, ctx, state) {
                let text = value_text(notice, state.vars)->Ok_0;
                assert(step.state.notices == state.notices.push(text));
                assert forall|i: int| 0 <= i < step.state.notices.len() implies (
                #[trigger] step.state.notices[i]).len() <= MAX_NOTICE_CHARACTERS by {
                    if i < state.notices.len() {
                        assert(step.state.notices[i] == state.notices[i]);
                    }
                }
            }
        },
        _ => {},
    }
}

/// No block takes the notices beyond their limits.
pub proof fn lemma_block_keeps_notice_limits(
    blocks: Seq<Seq<InstructionView>>,
    b: int,
    k: int,
    ctx: EvalContext,
    state: EvalState,
)
    requires
        notices_within_limits(state.notices),
    ensures
        run_block(blocks, b, k, ctx, state) matches Ok(step) ==> notices_within_limits(
            step.state.notices,
        ),
    decreases blocks.len() - b, blocks[b].len() - k,
{
    if 0 <= b < blocks.len() && 0 <= k < blocks[b].len() {
        let instr = blocks[b][k];
        if !(instr.kind matches InstrKindView::If(_, target) && target <= b) {
            lemma_instr_keeps_notice_limits(blocks, instr, ctx, state);
            if let Ok(step) = run_instr(blocks, instr, ctx, state) {
                if !step.finish {
                    lemma_block_keeps_notice_limits(blocks, b, k + 1, ctx, step.state);
                }
            }
        }
    }
}

/// Every evaluation of a script that succeeds has gathered no more notices
/// than are allowed, none of them longer than is allowed.
pub proof fn lemma_script_keeps_notice_limits(parsed: ParsedView, ctx: EvalContext)
    ensures
        run_script(parsed, ctx) matches Ok(state) ==> notices_within_limits(state.notices),
{
    if let Some(block) = crate::parse::routine_block(parsed.routines, INSTALL_ROUTINE@) {
        if block < parsed.blocks.len() {
            lemma_block_keeps_notice_limits(parsed.blocks, block as int, 0, ctx, EvalState::empty());
        }
    }
}

/// A `require` instruction with the groups `[a|b, c]` gathers exactly these
/// groups when resolving: the dependencies that the evaluation has gathered
/// are extended by the groups of the instruction, with their alternatives in
/// the order in which they are written.
pub proof fn lemma_require_gathers_its_groups(
    groups: Seq<Seq<RequirePackageView>>,
    ctx: EvalContext,
    state: EvalState,
)
    requires
        ctx.level == EvalLevel::Resolve,
    ensures
        match resolve_groups(groups, state.vars) {
            Ok(resolved) => apply_instr(InstrKindView::Require(groups), ctx, state) == Ok::<
                Step,
                EvalErrorKindView,
            >(Step { state: EvalState { deps: state.deps + resolved, ..state }, finish: false })
                && resolved.len() == groups.len() && forall|g: int|
                0 <= g < groups.len() ==> resolve_group(groups[g], state.vars) == Ok::<
                    Seq<RequiredPackageView>,
                    EvalErrorKindView,
                >(#[trigger] resolved[g]),
            Err(e) => apply_instr(InstrKindView::Require(groups), ctx, state) == Err::<
                Step,
                EvalErrorKindView,
            >(e),
        },
{
    lemma_resolve_groups(groups, state.vars);
}

/// The resolved groups are one for each group that is written, in their
/// order.
pub proof fn lemma_resolve_groups(
    groups: Seq<Seq<RequirePackageView>>,
    vars: Map<Seq<char>, Seq<char>>,
)
    ensures
        resolve_groups(groups, vars) matches Ok(resolved) ==> resolved.len() == groups.len()
            && forall|g: int|
            0 <= g < groups.len() ==> resolve_group(groups[g], vars) == Ok::<
                Seq<RequiredPackageView>,
                EvalErrorKindView,
            >(#[trigger] resolved[g]),
    decreases groups.len(),
{
    if groups.len() > 0 {
        let rest = groups.drop_first();
        lemma_resolve_groups(rest, vars);
        if let Ok(resolved) = resolve_groups(groups, vars) {
            let first = resolve_group(groups[0], vars)->Ok_0;
            let others = resolve_groups(rest, vars)->Ok_0;
            assert(resolved == seq![first] + others);
            assert forall|g: int| 0 <= g < groups.len() implies resolve_group(groups[g], vars)
                == Ok::<Seq<RequiredPackageView>, EvalErrorKindView>(#[trigger] resolved[g]) by {
                if g > 0 {
                    assert(groups[g] == rest[g - 1]);
                    assert(resolved[g] == others[g - 1]);
                }
            }
        }
    }
}

/// The resolved alternatives of a group are one for each alternative that
/// is written, in their order, each with its text and whether it is
/// explicit.
pub proof fn lemma_resolve_group(group: Seq<RequirePackageView>, vars: Map<Seq<char>, Seq<char>>)
    ensures
        resolve_group(group, vars) matches Ok(resolved) ==> resolved.len() == group.len()
            && forall|a: int|
            0 <= a < group.len() ==> value_text(group[a].value, vars) == Ok::<
                Seq<char>,
                EvalErrorKindView,
            >((#[trigger] resolved[a]).value) && resolved[a].explicit == group[a].explicit,
    decreases group.len(),
{
    if group.len() > 0 {
        let rest = group.drop_first();
        lemma_resolve_group(rest, vars);
        if let Ok(resolved) = resolve_group(group, vars) {
            let text = value_text(group[0].value, vars)->Ok_0;
            let first = RequiredPackageView { value: text, explicit: group[0].explicit };
            let others = resolve_group(rest, vars)->Ok_0;
            assert(resolved == seq![first] + others);
            assert forall|a: int| 0 <= a < group.len() implies value_text(group[a].value, vars)
                == Ok::<Seq<char>, EvalErrorKindView>((#[trigger] resolved[a]).value)
                && resolved[a].explicit == group[a].explicit by {
                if a > 0 {
                    assert(group[a] == rest[a - 1]);
                    assert(resolved[a] == others[a - 1]);
                }
            }
        }
    }
}

} // verus!
