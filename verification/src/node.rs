use vstd::prelude::*;

verus! {

/// The command-line flags with which a node is started.
pub struct Parameters {
    pub dev: bool,
    pub chain: Option<String>,
    pub alice: bool,
    pub tmp: bool,
}

impl Default for Parameters {
    fn default() -> (r: Self)
        ensures
            r.dev,
            r.chain is None,
            !r.alice,
            !r.tmp,
    {
        Parameters { dev: true, chain: None, alice: false, tmp: false }
    }
}

impl Clone for Parameters {
    fn clone(&self) -> (r: Self)
        ensures
            r == *self,
    {
        Parameters {
            dev: self.dev,
            chain: match &self.chain {
                Some(c) => Some(c.clone()),
                None => None,
            },
            alice: self.alice,
            tmp: self.tmp,
        }
    }
}

/// The arguments that `Parameters::build` gives: the development flag alone.
pub open spec fn node_arguments() -> Seq<Seq<char>> {
    seq!["--dev"@]
}

pub open spec fn string_views(v: Seq<String>) -> Seq<Seq<char>> {
    v.map_values(|s: String| s@)
}

impl Parameters {
    pub fn new() -> (r: Self)
        ensures
            r.dev,
            r.chain is None,
            !r.alice,
            !r.tmp,
    {
        Self::default()
    }

    /// The arguments for the node's command line, whatever the flags hold.
    pub fn build(&self) -> (r: Vec<String>)
        ensures
            string_views(r@) == node_arguments(),
    {
        let r = vec![String::from_str("--dev")];
        assert(string_views(r@) =~= node_arguments());
        r
    }
}

/// What is known of a running node process.
#[derive(Clone, Copy)]
pub struct ProcessInformation {
    pub pid: usize,
}

/// A node binary, where it lives, and the process that runs it, if any.
pub struct Node {
    pub binary_name: String,
    pub binary_path: String,
    pub storage_path: String,
    pub proc: Option<ProcessInformation>,
    pub args: Parameters,
}

impl Default for Node {
    fn default() -> (r: Self)
        ensures
            r.binary_name@ == Seq::<char>::empty(),
            r.binary_path@ == Seq::<char>::empty(),
            r.storage_path@ == Seq::<char>::empty(),
            r.proc is None,
            r.args.dev,
            r.args.chain is None,
            !r.args.alice,
            !r.args.tmp,
    {
        Node {
            binary_name: String::new(),
            binary_path: String::new(),
            storage_path: String::new(),
            proc: None,
            args: Parameters::default(),
        }
    }
}

/// The binary that a new node runs.
pub open spec fn default_binary_name() -> Seq<char> {
    "seed"@
}

pub open spec fn default_binary_path() -> Seq<char> {
    "/home/marko/Projects/centrality/seed/target/debug/seed"@
}

impl Node {
    /// The process id of the running node, if it runs.
    pub open spec fn spec_pid(&self) -> Option<usize> {
        match self.proc {
            Some(p) => Some(p.pid),
            None => None,
        }
    }

    pub fn new() -> (r: Self)
        ensures
            r.binary_name@ == default_binary_name(),
            r.binary_path@ == default_binary_path(),
            r.storage_path@ == Seq::<char>::empty(),
            r.proc is None,
            r.args.dev,
            r.args.chain is None,
            !r.args.alice,
            !r.args.tmp,
    {
        Node {
            binary_name: String::from_str("seed"),
            binary_path: String::from_str("/home/marko/Projects/centrality/seed/target/debug/seed"),
            ..Default::default()
        }
    }

    pub fn set_binary_name(&mut self, val: String)
        ensures
            *final(self) == (Node { binary_name: val, ..*old(self) }),
    {
        self.binary_name = val;
    }

    pub fn set_binary_path(&mut self, val: String)
        ensures
            *final(self) == (Node { binary_path: val, ..*old(self) }),
    {
        self.binary_path = val;
    }

    pub fn set_storage_path(&mut self, val: String)
        ensures
            *final(self) == (Node { storage_path: val, ..*old(self) }),
    {
        self.storage_path = val;
    }

    /// Records what the system reports of the node's process: `proc` is the
    /// process that runs `binary_name`, if one does.
    pub fn refresh(&mut self, proc: Option<ProcessInformation>)
        ensures
            *final(self) == (Node { proc, ..*old(self) }),
    {
        self.proc = proc;
    }

    pub fn pid(&self) -> (r: Option<usize>)
        ensures
            r == self.spec_pid(),
    {
        match &self.proc {
            Some(proc) => Some(proc.pid),
            None => None,
        }
    }

    pub fn path(&self) -> (r: String)
        ensures
            r@ == self.binary_path@,
    {
        self.binary_path.clone()
    }

    pub fn args(&self) -> (r: Vec<String>)
        ensures
            string_views(r@) == node_arguments(),
    {
        self.args.build()
    }
}

pub open spec fn result_view(r: Result<String, String>) -> Result<Seq<char>, Seq<char>> {
    match r {
        Ok(s) => Ok(s@),
        Err(e) => Err(e@),
    }
}

/// The answer to a request to stop a node with process id `pid`, where
/// `has_child` says whether the manager holds the process it started.
pub open spec fn stop_verdict(pid: Option<usize>, has_child: bool) -> Result<Seq<char>, Seq<char>> {
    if pid is None {
        Err("Cannot stop node. Node is not running."@)
    } else if !has_child {
        Err("Cannot stop node. Node is not running. 2"@)
    } else {
        Ok("Node is killed"@)
    }
}

/// The answer to a request to start a node with process id `pid`, before the
/// process is spawned.
pub open spec fn start_refusal(pid: Option<usize>) -> Option<Seq<char>> {
    if pid is Some {
        Some("Node is already running"@)
    } else {
        None
    }
}

/// Starts and stops the process of a node. `C` is the handle of a running
/// child process; the caller spawns, kills and waits for it.
pub struct NodeManager<C>(pub Option<C>);

impl<C> Default for NodeManager<C> {
    fn default() -> (r: Self)
        ensures
            r.0 is None,
    {
        NodeManager(None)
    }
}

impl<C> NodeManager<C> {
    /// Decides a request to stop `node`. Where it may be stopped, hands out
    /// the child to kill and wait for, with the answer to give once that is
    /// done; the manager then holds no child.
    pub fn stop_node(&mut self, node: &Node) -> (r: Result<(C, String), String>)
        ensures
            match r {
                Ok((child, msg)) => {
                    &&& stop_verdict(node.spec_pid(), true) == Ok::<Seq<char>, Seq<char>>(msg@)
                    &&& node.spec_pid() is Some
                    &&& old(self).0 == Some(child)
                    &&& final(self).0 is None
                },
                Err(e) => {
                    &&& stop_verdict(node.spec_pid(), old(self).0 is Some) == Err::<Seq<char>, Seq<char>>(e@)
                    &&& final(self).0 == (if node.spec_pid() is None { old(self).0 } else { None })
                },
            },
    {
        if node.pid().is_none() {
            return Err(String::from_str("Cannot stop node. Node is not running."));
        }
        match self.0.take() {
            None => Err(String::from_str("Cannot stop node. Node is not running. 2")),
            Some(child) => Ok((child, String::from_str("Node is killed"))),
        }
    }

    /// Decides a request to start `node`: the command and the arguments to
    /// spawn, or the refusal.
    pub fn start_node(&self, node: &Node) -> (r: Result<(String, Vec<String>), String>)
        ensures
            match r {
                Ok((command, args)) => {
                    &&& start_refusal(node.spec_pid()) is None
                    &&& command@ == node.binary_path@
                    &&& string_views(args@) == node_arguments()
                },
                Err(e) => start_refusal(node.spec_pid()) == Some(e@),
            },
    {
        if node.pid().is_some() {
            return Err(String::from_str("Node is already running"));
        }
        let command = node.path();
        let args = node.args();
        Ok((command, args))
    }

    /// Records the outcome of spawning the node's process: the child on
    /// success, or the spawn error's message.
    pub fn record_start(&mut self, spawned: Result<C, String>) -> (r: Result<String, String>)
        ensures
            match spawned {
                Ok(child) => {
                    &&& final(self).0 == Some(child)
                    &&& result_view(r) == Ok::<Seq<char>, Seq<char>>("New process is created"@)
                },
                Err(e) => {
                    &&& *final(self) == *old(self)
                    &&& result_view(r) == Err::<Seq<char>, Seq<char>>(e@)
                },
            },
    {
        match spawned {
            Ok(child) => {
                self.0 = Some(child);
                Ok(String::from_str("New process is created"))
            },
            Err(e) => Err(e),
        }
    }
}

/// After `refresh` records a process, `pid` reports that process's id; after
/// it records none, `pid` reports none.
pub proof fn law_pid_after_refresh(node: Node, proc: Option<ProcessInformation>)
    ensures
        (Node { proc, ..node }).spec_pid() == match proc {
            Some(p) => Some(p.pid),
            None => None::<usize>,
        },
{
}

/// A node that may be started is refused a stop, whatever the manager holds,
/// and a node that may be stopped is refused a start.
pub proof fn law_start_and_stop_exclusive(pid: Option<usize>, has_child: bool)
    ensures
        start_refusal(pid) is None ==> stop_verdict(pid, has_child) is Err,
        stop_verdict(pid, has_child) is Ok ==> start_refusal(pid) is Some,
{
}

} // verus!
