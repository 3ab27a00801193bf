//! Service records: the static descriptor and the runtime state of a service.
use vstd::prelude::*;
use vstd::string::StringExecFns;

verus! {

/// Status of a supervised service.
#[derive(Debug, Clone, Copy, PartialEq, Eq, Structural)]
pub enum ServiceStatus {
    /// The service is running.
    Running,
    /// The service has exited or was killed, and was reaped.
    Stopped,
    /// The process exited but is waiting to be reaped.
    Zombie,
}

/// A service: its descriptor (name, executable, arguments) and its runtime state.
#[derive(Debug)]
pub struct Service {
    /// Name of the service, the key of control requests.
    pub name: String,
    /// Path of the executable.
    pub executable: String,
    /// Arguments passed after argv[0].
    pub args: Option<Vec<String>>,
    /// Process id, once forked.
    pub pid: Option<i32>,
    /// Status, once forked.
    pub status: Option<ServiceStatus>,
    /// Exit code, once the process exited normally.
    pub exit_code: Option<u8>,
}

/// The mathematical value of a [`Service`].
pub struct ServiceView {
    pub name: Seq<char>,
    pub executable: Seq<char>,
    pub args: Option<Seq<Seq<char>>>,
    pub pid: Option<i32>,
    pub status: Option<ServiceStatus>,
    pub exit_code: Option<u8>,
}

impl View for Service {
    type V = ServiceView;

    open spec fn view(&self) -> ServiceView {
        ServiceView {
            name: self.name@,
            executable: self.executable@,
            args: match self.args {
                Some(a) => Some(a.deep_view()),
                None => None,
            },
            pid: self.pid,
            status: self.status,
            exit_code: self.exit_code,
        }
    }
}

/// A descriptor that has not been launched yet.
pub open spec fn descriptor(
    name: Seq<char>,
    executable: Seq<char>,
    args: Option<Seq<Seq<char>>>,
) -> ServiceView {
    ServiceView { name, executable, args, pid: None, status: None, exit_code: None }
}

/// The argument vector of a service: the executable, then the declared arguments in order.
pub open spec fn argv_of(s: ServiceView) -> Seq<Seq<char>> {
    seq![s.executable] + match s.args {
        Some(a) => a,
        None => Seq::empty(),
    }
}

/// The log file of a service: `<log_dir>/<name>.log`.
pub open spec fn log_path_of(log_dir: Seq<char>, name: Seq<char>) -> Seq<char> {
    log_dir + "/"@ + name + ".log"@
}

impl Service {
    /// A service as declared, before it is launched.
    pub fn new(name: String, executable: String, args: Option<Vec<String>>) -> (r: Service)
        ensures
            r@ == descriptor(
                name@,
                executable@,
                match args {
                    Some(a) => Some(a.deep_view()),
                    None => None,
                },
            ),
    {
        Service { name, executable, args, pid: None, status: None, exit_code: None }
    }

    /// The argument vector handed to exec: argv[0] is the executable path.
    pub fn argv(&self) -> (r: Vec<String>)
        ensures
            r.deep_view() == argv_of(self@),
    {
        let mut r: Vec<String> = Vec::new();
        r.push(self.executable.clone());
        assert(r.deep_view() =~= seq![self.executable@]);
        match &self.args {
            Some(a) => {
                let mut i: usize = 0;
                while i < a.len()
                    invariant
                        i <= a.len(),
                        r.deep_view() == seq![self.executable@] + a.deep_view().take(i as int),
                    decreases a.len() - i,
                {
                    let ghost before = r.deep_view();
                    let item = a[i].clone();
                    r.push(item);
                    proof {
                        assert(r.deep_view() =~= before.push(a[i as int]@));
                        assert(a.deep_view().take(i + 1) =~= a.deep_view().take(i as int).push(
                            a[i as int]@,
                        ));
                        assert(r.deep_view() =~= seq![self.executable@] + a.deep_view().take(
                            i + 1,
                        ));
                    }
                    i = i + 1;
                }
                assert(a.deep_view().take(i as int) =~= a.deep_view());
            },
            None => {
                assert(r.deep_view() =~= argv_of(self@));
            },
        }
        r
    }

    /// The file that receives the service's standard output and error.
    pub fn log_path(&self, log_dir: &str) -> (r: String)
        ensures
            r@ == log_path_of(log_dir@, self.name@),
    {
        let mut r: String = log_dir.to_owned();
        r.append("/");
        r.append(self.name.as_str());
        r.append(".log");
        r
    }
}

} // verus!
