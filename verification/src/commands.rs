//! What the commands of the package manager decide, apart from what they
//! print, fetch and write.

use vstd::prelude::*;
use crate::config::{Config, ConfigView, ConfiguredInstanceView, ConfiguredProfileView, has_user};
use crate::instance::Side;
use crate::text::{lemma_push_deep_view, str_eq};
use crate::versions::contains;

verus! {

/// What the `info` subcommand of a profile does.
pub const INFO_HELP: &'static str = "View helpful information about a profile";

/// What the `list` subcommand of a profile does.
pub const LIST_HELP: &'static str = "List all profiles and their instances";

/// What the `update` subcommand of a profile does.
pub const UPDATE_HELP: &'static str = "Update the packages and instances of a profile";

/// What the `reinstall` subcommand of a profile does.
pub const REINSTALL_HELP: &'static str = "Force reinstall a profile and all its files";

/// What a command on profiles asks for.
#[derive(Debug, PartialEq, Eq)]
pub enum ProfileCommand {
    /// Print how the command is used.
    Help,
    /// List all profiles.
    List,
    /// Print what a subcommand does: `info`, `update` or `reinstall`
    /// without a profile.
    Describe(String),
    /// Print information on a profile.
    Info(String),
    /// Update a profile, and reinstall its files where `force` is set.
    Update { id: String, force: bool },
    /// A subcommand that is not known.
    Unknown(String),
}

/// The mathematical value of a [`ProfileCommand`].
pub enum ProfileCommandView {
    Help,
    List,
    Describe(Seq<char>),
    Info(Seq<char>),
    Update { id: Seq<char>, force: bool },
    Unknown(Seq<char>),
}

impl View for ProfileCommand {
    type V = ProfileCommandView;

    open spec fn view(&self) -> ProfileCommandView {
        match *self {
            ProfileCommand::Help => ProfileCommandView::Help,
            ProfileCommand::List => ProfileCommandView::List,
            ProfileCommand::Describe(text) => ProfileCommandView::Describe(text@),
            ProfileCommand::Info(id) => ProfileCommandView::Info(id@),
            ProfileCommand::Update { id, force } => ProfileCommandView::Update { id: id@, force },
            ProfileCommand::Unknown(name) => ProfileCommandView::Unknown(name@),
        }
    }
}

/// The command that arguments ask for. Without arguments the usage is
/// printed. A subcommand that needs a profile and gets none is described.
pub open spec fn profile_command(argv: Seq<Seq<char>>) -> ProfileCommandView {
    if argv.len() == 0 {
        ProfileCommandView::Help
    } else if argv[0] == "list"@ {
        ProfileCommandView::List
    } else if argv[0] == "info"@ {
        if argv.len() == 1 {
            ProfileCommandView::Describe(INFO_HELP@)
        } else {
            ProfileCommandView::Info(argv[1])
        }
    } else if argv[0] == "update"@ {
        if argv.len() == 1 {
            ProfileCommandView::Describe(UPDATE_HELP@)
        } else {
            ProfileCommandView::Update { id: argv[1], force: false }
        }
    } else if argv[0] == "reinstall"@ {
        if argv.len() == 1 {
            ProfileCommandView::Describe(REINSTALL_HELP@)
        } else {
            ProfileCommandView::Update { id: argv[1], force: true }
        }
    } else {
        ProfileCommandView::Unknown(argv[0])
    }
}

/// Reads the command on profiles that arguments ask for.
pub fn read_profile_command(argv: &Vec<String>) -> (r: ProfileCommand)
    ensures
        r@ == profile_command(argv.deep_view()),
{
    if argv.len() == 0 {
        return ProfileCommand::Help;
    }
    assert(argv.deep_view()[0] == argv[0]@);
    let name = argv[0].as_str();
    if str_eq(name, "list") {
        return ProfileCommand::List;
    }
    let described = if str_eq(name, "info") {
        INFO_HELP
    } else if str_eq(name, "update") {
        UPDATE_HELP
    } else if str_eq(name, "reinstall") {
        REINSTALL_HELP
    } else {
        return ProfileCommand::Unknown(argv[0].clone());
    };
    if argv.len() == 1 {
        return ProfileCommand::Describe(described.to_owned());
    }
    assert(argv.deep_view()[1] == argv[1]@);
    proof {
        reveal_strlit("update");
        reveal_strlit("reinstall");
        assert("update"@.len() != "reinstall"@.len());
    }
    if str_eq(name, "info") {
        ProfileCommand::Info(argv[1].clone())
    } else {
        ProfileCommand::Update { id: argv[1].clone(), force: str_eq(name, "reinstall") }
    }
}

/// Why a command cannot be run on a configuration.
#[derive(Debug, PartialEq, Eq)]
pub enum CommandError {
    UnknownProfile(String),
    UnknownInstance(String),
    UnknownUser(String),
    /// An instance that no profile holds.
    InstanceWithoutProfile(String),
}

/// The mathematical value of a [`CommandError`].
pub enum CommandErrorView {
    UnknownProfile(Seq<char>),
    UnknownInstance(Seq<char>),
    UnknownUser(Seq<char>),
    InstanceWithoutProfile(Seq<char>),
}

impl View for CommandError {
    type V = CommandErrorView;

    open spec fn view(&self) -> CommandErrorView {
        match *self {
            CommandError::UnknownProfile(id) => CommandErrorView::UnknownProfile(id@),
            CommandError::UnknownInstance(id) => CommandErrorView::UnknownInstance(id@),
            CommandError::UnknownUser(id) => CommandErrorView::UnknownUser(id@),
            CommandError::InstanceWithoutProfile(id) => CommandErrorView::InstanceWithoutProfile(
                id@,
            ),
        }
    }
}

impl CommandError {
    /// The message of the error.
    pub open spec fn message(self) -> Seq<char> {
        match self {
            CommandError::UnknownProfile(id) => "Profile '"@ + id@ + "' does not exist"@,
            CommandError::UnknownInstance(id) => "Unknown instance '"@ + id@ + "'"@,
            CommandError::UnknownUser(id) => "User '"@ + id@ + "' does not exist"@,
            CommandError::InstanceWithoutProfile(id) => "Instance '"@ + id@
                + "' does not belong to any profiles"@,
        }
    }

    /// The message of the error.
    pub fn to_string(&self) -> (r: String)
        ensures
            r@ == self.message(),
    {
        let mut out = String::new();
        match self {
            CommandError::UnknownProfile(id) => {
                out.append("Profile '");
                out.append(id.as_str());
                out.append("' does not exist");
            },
            CommandError::UnknownInstance(id) => {
                out.append("Unknown instance '");
                out.append(id.as_str());
                out.append("'");
            },
            CommandError::UnknownUser(id) => {
                out.append("User '");
                out.append(id.as_str());
                out.append("' does not exist");
            },
            CommandError::InstanceWithoutProfile(id) => {
                out.append("Instance '");
                out.append(id.as_str());
                out.append("' does not belong to any profiles");
            },
        }
        assert(out@ =~= self.message());
        out
    }
}

/// The index of the first profile from index `from` on that has the
/// identifier `id`.
pub open spec fn find_profile(profiles: Seq<ConfiguredProfileView>, id: Seq<char>, from: int)
    -> Option<int>
    decreases profiles.len() - from,
{
    if 0 <= from < profiles.len() {
        if profiles[from].id == id {
            Some(from)
        } else {
            find_profile(profiles, id, from + 1)
        }
    } else {
        None
    }
}

/// The index of the first instance from index `from` on that has the
/// identifier `id`.
pub open spec fn find_instance(instances: Seq<ConfiguredInstanceView>, id: Seq<char>, from: int)
    -> Option<int>
    decreases instances.len() - from,
{
    if 0 <= from < instances.len() {
        if instances[from].id == id {
            Some(from)
        } else {
            find_instance(instances, id, from + 1)
        }
    } else {
        None
    }
}

/// The index of the first profile from index `from` on that holds the
/// instance with the identifier `instance`.
pub open spec fn profile_holding(
    profiles: Seq<ConfiguredProfileView>,
    instance: Seq<char>,
    from: int,
) -> Option<int>
    decreases profiles.len() - from,
{
    if 0 <= from < profiles.len() {
        if profiles[from].instances.contains(instance) {
            Some(from)
        } else {
            profile_holding(profiles, instance, from + 1)
        }
    } else {
        None
    }
}

/// Whether an instance is listed: it is on the side that is asked for and
/// among the instances that are asked for, where the listing is filtered.
pub open spec fn is_listed(
    instance: ConfiguredInstanceView,
    side: Option<Side>,
    among: Option<Seq<Seq<char>>>,
) -> bool {
    &&& side matches Some(side) ==> instance.kind.side() == side
    &&& among matches Some(ids) ==> ids.contains(instance.id)
}

/// The identifiers of the instances that are listed, in their order.
pub open spec fn listed(
    instances: Seq<ConfiguredInstanceView>,
    side: Option<Side>,
    among: Option<Seq<Seq<char>>>,
) -> Seq<Seq<char>>
    decreases instances.len(),
{
    if instances.len() == 0 {
        Seq::empty()
    } else {
        let front = listed(instances.drop_last(), side, among);
        if is_listed(instances.last(), side, among) {
            front.push(instances.last().id)
        } else {
            front
        }
    }
}

impl Config {
    /// Finds the profile with the given identifier.
    pub fn find_profile(&self, id: &str) -> (r: Option<usize>)
        ensures
            match r {
                Some(index) => find_profile(self@.profiles, id@, 0) == Some(index as int) && index
                    < self.profiles.len() && self.profiles[index as int].id@ == id@,
                None => find_profile(self@.profiles, id@, 0) is None,
            },
    {
        let ghost all = self@.profiles;
        let mut i: usize = 0;
        while i < self.profiles.len()
            invariant
                i <= self.profiles.len(),
                all == self.profiles.deep_view(),
                find_profile(all, id@, 0) == find_profile(all, id@, i as int),
            decreases self.profiles.len() - i,
        {
            assert(all[i as int] == self.profiles[i as int]@);
            if str_eq(self.profiles[i].id.as_str(), id) {
                return Some(i);
            }
            i += 1;
        }
        None
    }

    /// Finds the instance with the given identifier.
    pub fn find_instance(&self, id: &str) -> (r: Option<usize>)
        ensures
            match r {
                Some(index) => find_instance(self@.instances, id@, 0) == Some(index as int) && index
                    < self.instances.len() && self.instances[index as int].id@ == id@,
                None => find_instance(self@.instances, id@, 0) is None,
            },
    {
        let ghost all = self@.instances;
        let mut i: usize = 0;
        while i < self.instances.len()
            invariant
                i <= self.instances.len(),
                all == self.instances.deep_view(),
                find_instance(all, id@, 0) == find_instance(all, id@, i as int),
            decreases self.instances.len() - i,
        {
            assert(all[i as int] == self.instances[i as int]@);
            if str_eq(self.instances[i].id.as_str(), id) {
                return Some(i);
            }
            i += 1;
        }
        None
    }

    /// Finds the profile that holds the instance with the given identifier.
    pub fn profile_of(&self, instance: &str) -> (r: Option<usize>)
        ensures
            match r {
                Some(index) => profile_holding(self@.profiles, instance@, 0) == Some(index as int)
                    && index < self.profiles.len(),
                None => profile_holding(self@.profiles, instance@, 0) is None,
            },
    {
        let ghost all = self@.profiles;
        let mut i: usize = 0;
        while i < self.profiles.len()
            invariant
                i <= self.profiles.len(),
                all == self.profiles.deep_view(),
                profile_holding(all, instance@, 0) == profile_holding(all, instance@, i as int),
            decreases self.profiles.len() - i,
        {
            assert(all[i as int] == self.profiles[i as int]@);
            if contains(&self.profiles[i].instances, instance) {
                return Some(i);
            }
            i += 1;
        }
        None
    }

    /// What the listing of instances gives: the instances on the side that
    /// is asked for, of the profile that is asked for, which has to exist.
    pub open spec fn listing(&self, side: Option<Side>, profile: Option<Seq<char>>) -> Result<
        Seq<Seq<char>>,
        CommandErrorView,
    > {
        match profile {
            Some(id) => match find_profile(self@.profiles, id, 0) {
                Some(index) => Ok(
                    listed(self@.instances, side, Some(self@.profiles[index].instances)),
                ),
                None => Err(CommandErrorView::UnknownProfile(id)),
            },
            None => Ok(listed(self@.instances, side, None)),
        }
    }

    /// Lists the identifiers of the instances, filtered by side and by
    /// profile where they are given.
    pub fn list_instances(&self, side: Option<Side>, profile: Option<&str>) -> (r: Result<
        Vec<String>,
        CommandError,
    >)
        ensures
            match self.listing(
                side,
                match profile {
                    Some(id) => Some(id@),
                    None => None,
                },
            ) {
                Ok(ids) => r matches Ok(got) && got.deep_view() == ids,
                Err(e) => r matches Err(err) && err@ == e,
            },
    {
        let among = match profile {
            Some(id) => match self.find_profile(id) {
                Some(index) => {
                    assert(self@.profiles[index as int] == self.profiles[index as int]@);
                    Some(&self.profiles[index].instances)
                },
                None => {
                    return Err(CommandError::UnknownProfile(id.to_owned()));
                },
            },
            None => None,
        };
        let ghost among_view: Option<Seq<Seq<char>>> = match among {
            Some(ids) => Some(ids.deep_view()),
            None => None,
        };
        let ghost all = self@.instances;
        let mut out: Vec<String> = Vec::new();
        let mut i: usize = 0;
        assert(all.take(0) =~= Seq::empty());
        assert(out.deep_view() =~= Seq::empty());
        while i < self.instances.len()
            invariant
                i <= self.instances.len(),
                all == self.instances.deep_view(),
                among_view == match among {
                    Some(ids) => Some(ids.deep_view()),
                    None => None::<Seq<Seq<char>>>,
                },
                out.deep_view() == listed(all.take(i as int), side, among_view),
            decreases self.instances.len() - i,
        {
            let instance = &self.instances[i];
            proof {
                assert(all.take(i + 1).drop_last() =~= all.take(i as int));
                assert(all.take(i + 1).last() == instance@);
            }
            let on_side = match side {
                Some(side) => instance.kind.to_side() == side,
                None => true,
            };
            let in_profile = match among {
                Some(ids) => contains(ids, instance.id.as_str()),
                None => true,
            };
            if on_side && in_profile {
                let ghost before = out;
                let id = instance.id.clone();
                out.push(id);
                proof {
                    lemma_push_deep_view(before, out, id);
                }
            }
            i += 1;
        }
        assert(all.take(self.instances.len() as int) =~= all);
        Ok(out)
    }

    /// Chooses the user to sign in, who has to exist.
    pub fn choose_user(&mut self, user: &str) -> (r: Result<(), CommandError>)
        ensures
            has_user(old(self)@.users, user@) ==> r is Ok && final(self)@ == (ConfigView {
                default_user: Some(user@),
                ..old(self)@
            }),
            !has_user(old(self)@.users, user@) ==> (r matches Err(err) && err@
                == CommandErrorView::UnknownUser(user@)) && final(self)@ == old(self)@,
    {
        if self.has_user(user) {
            self.default_user = Some(user.to_owned());
            Ok(())
        } else {
            Err(CommandError::UnknownUser(user.to_owned()))
        }
    }

    /// What is launched for an instance: the instance and the profile that
    /// holds it, both as indices into the configuration.
    pub fn launch_target(&self, instance: &str) -> (r: Result<(usize, usize), CommandError>)
        ensures
            match find_instance(self@.instances, instance@, 0) {
                None => r matches Err(err) && err@ == CommandErrorView::UnknownInstance(instance@),
                Some(index) => match profile_holding(self@.profiles, instance@, 0) {
                    None => r matches Err(err) && err@ == CommandErrorView::InstanceWithoutProfile(
                        instance@,
                    ),
                    Some(profile) => r == Ok::<(usize, usize), CommandError>(
                        (index as usize, profile as usize),
                    ),
                },
            },
    {
        let index = match self.find_instance(instance) {
            Some(index) => index,
            None => {
                return Err(CommandError::UnknownInstance(instance.to_owned()));
            },
        };
        match self.profile_of(instance) {
            Some(profile) => Ok((index, profile)),
            None => Err(CommandError::InstanceWithoutProfile(instance.to_owned())),
        }
    }
}

} // verus!
