//! Everything one guest execution needs besides the module bytes:
//! capabilities, environment variables, the three captured streams and the
//! task manager that runs guest threads.

use vstd::prelude::*;

verus! {

/// How many threads a guest may spawn.
#[derive(Clone, Copy, Debug, PartialEq, Eq, Structural)]
pub struct ThreadingPolicy {
    /// The largest number of guest threads; `None` sets no limit.
    pub max_threads: Option<usize>,
}

/// What a guest environment is allowed to do. A capability set is fixed
/// once it is handed to the environment builder.
#[derive(Clone, Copy, Debug, PartialEq, Eq, Structural)]
pub struct CapabilitySet {
    /// Lifts every restriction.
    pub unrestricted: bool,
    /// Lets the guest use the HTTP client.
    pub http_client: bool,
    pub threading: ThreadingPolicy,
}

/// The environment variables a guest sees at its start: at most one value
/// for each name.
pub struct EnvironmentConfig {
    entries: Vec<(String, String)>,
}

/// The names of a list of entries, in order.
pub open spec fn entry_names(entries: Seq<(String, String)>) -> Seq<Seq<char>> {
    Seq::new(entries.len(), |i: int| entries[i].0@)
}

/// Whether some entry of `entries` has the name `name`.
pub open spec fn names_contain(entries: Seq<(String, String)>, name: Seq<char>) -> bool {
    exists|i: int| 0 <= i < entries.len() && (#[trigger] entries[i]).0@ == name
}

/// The position of an entry of `entries` that has the name `name`.
pub open spec fn entry_position(entries: Seq<(String, String)>, name: Seq<char>) -> int {
    choose|i: int| 0 <= i < entries.len() && (#[trigger] entries[i]).0@ == name
}

/// The mapping that a list of entries with distinct names stands for.
pub open spec fn entries_map(entries: Seq<(String, String)>) -> Map<Seq<char>, Seq<char>> {
    Map::new(
        |name: Seq<char>| names_contain(entries, name),
        |name: Seq<char>| entries[entry_position(entries, name)].1@,
    )
}

/// An entry of a list with distinct names is what the list's mapping holds
/// under the entry's name.
proof fn lemma_entry_in_map(entries: Seq<(String, String)>, i: int)
    requires
        entry_names(entries).no_duplicates(),
        0 <= i < entries.len(),
    ensures
        entries_map(entries).dom().contains(entries[i].0@),
        entries_map(entries)[entries[i].0@] == entries[i].1@,
{
    let name = entries[i].0@;
    assert(names_contain(entries, name));
    let j = entry_position(entries, name);
    assert(entry_names(entries)[i] == name);
    assert(entry_names(entries)[j] == name);
    assert(i == j);
    assert(entries_map(entries)[name] == entries[j].1@);
}

impl View for EnvironmentConfig {
    type V = Map<Seq<char>, Seq<char>>;

    closed spec fn view(&self) -> Map<Seq<char>, Seq<char>> {
        entries_map(self.entries@)
    }
}

impl EnvironmentConfig {
    #[verifier::type_invariant]
    spec fn well_formed(&self) -> bool {
        entry_names(self.entries@).no_duplicates()
    }

    /// The variables as pairs of name and value, each name once.
    pub closed spec fn pairs(&self) -> Seq<(String, String)> {
        self.entries@
    }

    /// The configuration without any variable.
    pub fn new() -> (config: Self)
        ensures
            config@ == Map::<Seq<char>, Seq<char>>::empty(),
    {
        let config = EnvironmentConfig { entries: Vec::new() };
        assert(config@ =~= Map::<Seq<char>, Seq<char>>::empty());
        config
    }

    /// The position of the entry named `name`.
    fn position(&self, name: &str) -> (found: Option<usize>)
        ensures
            match found {
                Some(i) => i < self.entries@.len() && self.entries@[i as int].0@ == name@,
                None => !names_contain(self.entries@, name@),
            },
    {
        let wanted = name.to_owned();
        let mut i: usize = 0;
        while i < self.entries.len()
            invariant
                i <= self.entries@.len(),
                wanted@ == name@,
                forall|j: int| 0 <= j < i ==> (#[trigger] self.entries@[j]).0@ != name@,
            decreases self.entries@.len() - i,
        {
            if self.entries[i].0 == wanted {
                return Some(i);
            }
            i += 1;
        }
        None
    }

    /// The number of variables.
    pub fn len(&self) -> (n: usize)
        ensures
            n == self@.dom().len(),
            self@.dom().finite(),
            n == self.pairs().len(),
    {
        proof {
            use_type_invariant(self);
            lemma_map_size(self.entries@);
        }
        self.entries.len()
    }

    /// The value of the variable `name`, if it is set.
    pub fn get(&self, name: &str) -> (value: Option<&String>)
        ensures
            match value {
                Some(v) => self@.dom().contains(name@) && self@[name@] == v@,
                None => !self@.dom().contains(name@),
            },
    {
        proof {
            use_type_invariant(self);
        }
        match self.position(name) {
            Some(i) => {
                proof {
                    lemma_entry_in_map(self.entries@, i as int);
                }
                Some(&self.entries[i].1)
            },
            None => None,
        }
    }

    /// Sets the variable `name` to `value`, whether or not it was set
    /// before; every other variable stays as it was.
    pub fn set(&mut self, name: String, value: String)
        ensures
            final(self)@ == old(self)@.insert(name@, value@),
    {
        proof {
            use_type_invariant(&*self);
        }
        let found = self.position(name.as_str());
        let mut taken = EnvironmentConfig { entries: Vec::new() };
        core::mem::swap(self, &mut taken);
        let mut entries = taken.entries;
        let ghost before = entries@;
        match found {
            Some(i) => {
                entries.set(i, (name, value));
                proof {
                    lemma_update_entry(before, i as int, (name, value));
                }
            },
            None => {
                entries.push((name, value));
                proof {
                    lemma_push_entry(before, (name, value));
                }
            },
        }
        *self = EnvironmentConfig { entries };
    }

    /// The variables as pairs of name and value, each name once, for handing
    /// to the guest environment.
    pub fn entries(&self) -> (entries: &Vec<(String, String)>)
        ensures
            entries@ == self.pairs(),
            entry_names(entries@).no_duplicates(),
            entries_map(entries@) == self@,
    {
        proof {
            use_type_invariant(self);
        }
        &self.entries
    }
}

/// The name under which every guest environment of this harness runs.
pub const ENVIRONMENT_NAME: &'static str = "nor2";

/// The host-facing ends of the three captured streams: the end the host
/// writes the guest's input to, and the ends it drains the guest's output
/// and error output from.
pub struct HostStreams {
    pub stdin: virtual_fs::Pipe,
    pub stdout: virtual_fs::Pipe,
    pub stderr: virtual_fs::Pipe,
}

/// Why an environment could not be finalized.
#[derive(Clone, Copy, Debug, PartialEq, Eq, Structural)]
pub enum EnvironmentFinalizationError {
    /// The environment was given no name.
    MissingName,
    /// The environment was given no task manager to run guest threads on.
    MissingTaskManager,
}

/// A guest environment under construction, wired to the guest's ends of the
/// three captured streams.
pub struct EnvironmentBuilder {
    name: Option<String>,
    task_manager: Option<tokio::runtime::Handle>,
    capabilities: CapabilitySet,
    environment: EnvironmentConfig,
    stdin: virtual_fs::Pipe,
    stdout: virtual_fs::Pipe,
    stderr: virtual_fs::Pipe,
}

/// A finalized guest environment: all that the runtime needs to set the
/// guest up. A handle is used up by the one instantiation it serves.
pub struct EnvironmentHandle {
    pub name: String,
    pub task_manager: tokio::runtime::Handle,
    pub capabilities: CapabilitySet,
    pub environment: EnvironmentConfig,
    /// The end the guest reads its input from.
    pub stdin: virtual_fs::Pipe,
    /// The end the guest writes its output to.
    pub stdout: virtual_fs::Pipe,
    /// The end the guest writes its error output to.
    pub stderr: virtual_fs::Pipe,
}

/// `virtual_fs::Pipe::channel`: the two connected ends of a new in-memory
/// byte channel. Nothing is claimed of them.
#[verifier::external_body]
fn stream_pair() -> (virtual_fs::Pipe, virtual_fs::Pipe) {
    virtual_fs::Pipe::channel()
}

impl EnvironmentBuilder {
    /// The name given to the environment, if any.
    pub closed spec fn name(&self) -> Option<Seq<char>> {
        match self.name {
            Some(name) => Some(name@),
            None => None,
        }
    }

    /// The task manager given to the environment, if any.
    pub closed spec fn task_manager(&self) -> Option<tokio::runtime::Handle> {
        self.task_manager
    }

    /// The capabilities of the guest.
    pub closed spec fn capabilities(&self) -> CapabilitySet {
        self.capabilities
    }

    /// The environment variables of the guest.
    pub closed spec fn environment(&self) -> Map<Seq<char>, Seq<char>> {
        self.environment@
    }

    /// The guest's ends of the input, output and error streams.
    pub closed spec fn guest_streams(&self) -> (virtual_fs::Pipe, virtual_fs::Pipe, virtual_fs::Pipe) {
        (self.stdin, self.stdout, self.stderr)
    }

    /// Starts an environment without name or task manager on three pairs of
    /// connected stream ends. Of the input pair the host gets the first end
    /// and the guest the second; of the output pair and of the error pair
    /// the guest gets the first end and the host the second.
    pub fn wired(
        capabilities: CapabilitySet,
        environment: EnvironmentConfig,
        input: (virtual_fs::Pipe, virtual_fs::Pipe),
        output: (virtual_fs::Pipe, virtual_fs::Pipe),
        error: (virtual_fs::Pipe, virtual_fs::Pipe),
    ) -> (r: (Self, HostStreams))
        ensures
            r.0.name() is None,
            r.0.task_manager() is None,
            r.0.capabilities() == capabilities,
            r.0.environment() == environment@,
            r.0.guest_streams() == (input.1, output.0, error.0),
            r.1.stdin == input.0,
            r.1.stdout == output.1,
            r.1.stderr == error.1,
    {
        let builder = EnvironmentBuilder {
            name: None,
            task_manager: None,
            capabilities,
            environment,
            stdin: input.1,
            stdout: output.0,
            stderr: error.0,
        };
        (builder, HostStreams { stdin: input.0, stdout: output.1, stderr: error.1 })
    }

    /// Starts an environment without name or task manager. The three
    /// captured streams are created here, each as a fresh pair of connected
    /// ends, and wired as `wired` says: the builder keeps the guest's ends,
    /// the host's ends are handed back.
    pub fn new(capabilities: CapabilitySet, environment: EnvironmentConfig) -> (r: (
        Self,
        HostStreams,
    ))
        ensures
            r.0.name() is None,
            r.0.task_manager() is None,
            r.0.capabilities() == capabilities,
            r.0.environment() == environment@,
    {
        let input = stream_pair();
        let output = stream_pair();
        let error = stream_pair();
        EnvironmentBuilder::wired(capabilities, environment, input, output, error)
    }

    /// Names the environment.
    pub fn named(self, name: String) -> (builder: Self)
        ensures
            builder.name() == Some(name@),
            builder.task_manager() == self.task_manager(),
            builder.capabilities() == self.capabilities(),
            builder.environment() == self.environment(),
            builder.guest_streams() == self.guest_streams(),
    {
        EnvironmentBuilder {
            name: Some(name),
            task_manager: self.task_manager,
            capabilities: self.capabilities,
            environment: self.environment,
            stdin: self.stdin,
            stdout: self.stdout,
            stderr: self.stderr,
        }
    }

    /// Gives the environment the task manager that runs guest threads.
    pub fn with_task_manager(self, task_manager: tokio::runtime::Handle) -> (builder: Self)
        ensures
            builder.name() == self.name(),
            builder.task_manager() == Some(task_manager),
            builder.capabilities() == self.capabilities(),
            builder.environment() == self.environment(),
            builder.guest_streams() == self.guest_streams(),
    {
        EnvironmentBuilder {
            name: self.name,
            task_manager: Some(task_manager),
            capabilities: self.capabilities,
            environment: self.environment,
            stdin: self.stdin,
            stdout: self.stdout,
            stderr: self.stderr,
        }
    }

    /// Closes the builder. An environment without a name or without a task
    /// manager is refused; otherwise the handle holds exactly what the
    /// builder was given.
    pub fn finalize(self) -> (r: Result<EnvironmentHandle, EnvironmentFinalizationError>)
        ensures
            self.name() is None ==> r == Err::<EnvironmentHandle, EnvironmentFinalizationError>(
                EnvironmentFinalizationError::MissingName,
            ),
            self.name() is Some && self.task_manager() is None ==> r == Err::<
                EnvironmentHandle,
                EnvironmentFinalizationError,
            >(EnvironmentFinalizationError::MissingTaskManager),
            self.name() is Some && self.task_manager() is Some ==> (r matches Ok(handle)
                && Some(handle.name@) == self.name() && Some(handle.task_manager)
                == self.task_manager() && handle.capabilities == self.capabilities()
                && handle.environment@ == self.environment() && (
            handle.stdin,
            handle.stdout,
            handle.stderr,
        ) == self.guest_streams()),
    {
        let name = match self.name {
            Some(name) => name,
            None => {
                return Err(EnvironmentFinalizationError::MissingName);
            },
        };
        let task_manager = match self.task_manager {
            Some(task_manager) => task_manager,
            None => {
                return Err(EnvironmentFinalizationError::MissingTaskManager);
            },
        };
        Ok(
            EnvironmentHandle {
                name,
                task_manager,
                capabilities: self.capabilities,
                environment: self.environment,
                stdin: self.stdin,
                stdout: self.stdout,
                stderr: self.stderr,
            },
        )
    }
}

/// Sets up the environment of one guest execution: the builder carries the
/// harness's fixed environment name, the capabilities and the environment
/// variables, and is wired to fresh captured streams whose host-facing ends
/// are handed back. The task manager is still to be given.
pub fn configure(capabilities: CapabilitySet, environment: EnvironmentConfig) -> (r: (
    EnvironmentBuilder,
    HostStreams,
))
    ensures
        r.0.name() == Some(ENVIRONMENT_NAME@),
        r.0.task_manager() is None,
        r.0.capabilities() == capabilities,
        r.0.environment() == environment@,
{
    let (builder, streams) = EnvironmentBuilder::new(capabilities, environment);
    (builder.named(ENVIRONMENT_NAME.to_owned()), streams)
}

/// A list of entries with distinct names has as many entries as its mapping
/// has names.
proof fn lemma_map_size(entries: Seq<(String, String)>)
    requires
        entry_names(entries).no_duplicates(),
    ensures
        entries_map(entries).dom().finite(),
        entries_map(entries).dom().len() == entries.len(),
{
    let names = entry_names(entries);
    assert(entries_map(entries).dom() =~= names.to_set()) by {
        assert forall|name: Seq<char>| names.to_set().contains(name) implies entries_map(entries).dom().contains(name) by {
            let i = choose|i: int| 0 <= i < names.len() && names[i] == name;
            assert(entries[i].0@ == name);
        }
        assert forall|name: Seq<char>| entries_map(entries).dom().contains(name) implies names.to_set().contains(name) by {
            let i = entry_position(entries, name);
            assert(names[i] == name);
        }
    }
    names.unique_seq_to_set();
}

/// Replacing the value of an entry keeps the names distinct and updates the
/// mapping under the entry's name.
proof fn lemma_update_entry(entries: Seq<(String, String)>, i: int, entry: (String, String))
    requires
        entry_names(entries).no_duplicates(),
        0 <= i < entries.len(),
        entries[i].0@ == entry.0@,
    ensures
        entry_names(entries.update(i, entry)).no_duplicates(),
        entries_map(entries.update(i, entry)) == entries_map(entries).insert(entry.0@, entry.1@),
{
    let after = entries.update(i, entry);
    assert(entry_names(after) =~= entry_names(entries));
    let updated = entries_map(entries).insert(entry.0@, entry.1@);
    assert forall|name: Seq<char>| entries_map(after).dom().contains(name) <==> updated.dom().contains(name) by {
        if entries_map(after).dom().contains(name) {
            let j = entry_position(after, name);
            assert(entries[j].0@ == name);
        }
        if updated.dom().contains(name) && name != entry.0@ {
            let j = entry_position(entries, name);
            assert(after[j].0@ == name);
        }
        if name == entry.0@ {
            assert(after[i].0@ == name);
        }
    }
    assert forall|name: Seq<char>| entries_map(after).dom().contains(name) implies entries_map(after)[name] == updated[name] by {
        let j = entry_position(after, name);
        lemma_entry_in_map(after, j);
        if j != i {
            assert(entry_names(entries)[j] == name);
            assert(entry_names(entries)[i] == entry.0@);
            lemma_entry_in_map(entries, j);
        }
    }
    assert(entries_map(after) =~= updated);
}

/// Adding an entry under a new name keeps the names distinct and extends the
/// mapping by the entry.
proof fn lemma_push_entry(entries: Seq<(String, String)>, entry: (String, String))
    requires
        entry_names(entries).no_duplicates(),
        !names_contain(entries, entry.0@),
    ensures
        entry_names(entries.push(entry)).no_duplicates(),
        entries_map(entries.push(entry)) == entries_map(entries).insert(entry.0@, entry.1@),
{
    let after = entries.push(entry);
    let last = entries.len() as int;
    assert(entry_names(after) =~= entry_names(entries).push(entry.0@));
    assert forall|a: int, b: int| 0 <= a < after.len() && 0 <= b < after.len() && a != b implies entry_names(after)[a] != entry_names(after)[b] by {
        if a < last && b < last {
            assert(entry_names(entries)[a] != entry_names(entries)[b]);
        } else if a < last {
            assert(entries[a].0@ != entry.0@);
        } else {
            assert(entries[b].0@ != entry.0@);
        }
    }
    let extended = entries_map(entries).insert(entry.0@, entry.1@);
    assert forall|name: Seq<char>| entries_map(after).dom().contains(name) <==> extended.dom().contains(name) by {
        if entries_map(after).dom().contains(name) {
            let j = entry_position(after, name);
            if j < last {
                assert(entries[j].0@ == name);
            }
        }
        if extended.dom().contains(name) && name != entry.0@ {
            let j = entry_position(entries, name);
            assert(after[j].0@ == name);
        }
        if name == entry.0@ {
            assert(after[last].0@ == name);
        }
    }
    assert forall|name: Seq<char>| entries_map(after).dom().contains(name) implies entries_map(after)[name] == extended[name] by {
        let j = entry_position(after, name);
        lemma_entry_in_map(after, j);
        if j < last {
            assert(entries[j].0@ == name);
            lemma_entry_in_map(entries, j);
        }
    }
    assert(entries_map(after) =~= extended);
}

} // verus!
