//! The controller: which worker plays which role, and which worker gets
//! which operation.

use vstd::prelude::*;
use vstd::string::StringExecFns;
use crate::backend::{command, CommandLine};
use crate::error::{ErrorKind, UpmError};
use crate::privilege::{current_process_id, BackendSetup, Operation};
use crate::registry::{cached_in, lookup_step, Probe, UpmBackend, WorkerRouter};
use crate::rpc::server::{dispatch, dispatched, Call, Reply, Router};
use crate::rpc::{
    HandeshakeParams, HandeshakeResult, OutdatedParams, OutdatedResult, UpdateParams,
    UpgradeParams,
};
use crate::worker::{worker_arg, worker_flag};

verus! {

/// The command line.
#[derive(Debug)]
pub struct UpmArgs {
    /// What to do. Without a mode, every backend is updated.
    pub mode: Option<ActionMode>,
    /// The controller's port, where the process is started as a worker;
    /// zero where it is the controller itself.
    pub worker: u16,
}

/// The subcommands.
#[derive(Debug)]
pub enum ActionMode {
    Update(BackendName),
    Outdated(BackendName),
    Upgrade(BackendName),
    Install(PackageName),
    Uninstall(PackageName),
}

/// The name of a package.
#[derive(Debug)]
pub struct PackageName {
    pub name: String,
}

/// The name of a backend, or none for all of them.
#[derive(Debug)]
pub struct BackendName {
    pub name: Option<String>,
}

impl UpmArgs {
    /// The port to connect back to, where the process was started as a
    /// worker.
    pub fn worker_port(&self) -> (port: Option<u16>)
        ensures
            port == (if self.worker != 0 {
                Some(self.worker)
            } else {
                None
            }),
    {
        if self.worker != 0 {
            Some(self.worker)
        } else {
            None
        }
    }
}

/// The call that asks a worker for `op` on the backend `name`.
pub fn call_for(op: Operation, name: &str) -> (call: Call)
    ensures
        call.method() == op.method(),
        call.backend_name() == Some(name@),
{
    match op {
        Operation::Update => Call::Update(UpdateParams { backend_name: String::from_str(name) }),
        Operation::Outdated => Call::Outdated(
            OutdatedParams { backend_name: String::from_str(name) },
        ),
        Operation::Upgrade => Call::Upgrade(UpgradeParams { backend_name: String::from_str(name) }),
    }
}

/// What the command line asks for: an operation, on one backend or on all.
#[derive(Debug, PartialEq, Eq)]
pub struct Job {
    pub op: Operation,
    pub scope: Option<String>,
}

/// The job that a mode stands for; none for a mode that is not implemented.
pub open spec fn job_of(mode: Option<ActionMode>) -> Option<(Operation, Option<Seq<char>>)> {
    match mode {
        None => Some((Operation::Update, None)),
        Some(ActionMode::Update(b)) => Some((Operation::Update, scope_of(b))),
        Some(ActionMode::Outdated(b)) => Some((Operation::Outdated, scope_of(b))),
        Some(ActionMode::Upgrade(b)) => Some((Operation::Upgrade, scope_of(b))),
        Some(ActionMode::Install(_)) => None,
        Some(ActionMode::Uninstall(_)) => None,
    }
}

/// The backend that a command is narrowed to, if it is.
pub open spec fn scope_of(b: BackendName) -> Option<Seq<char>> {
    match b.name {
        Some(name) => Some(name@),
        None => None,
    }
}

impl Job {
    pub open spec fn view(&self) -> (Operation, Option<Seq<char>>) {
        (
            self.op,
            match self.scope {
                Some(name) => Some(name@),
                None => None,
            },
        )
    }
}

fn scope(b: &BackendName) -> (r: Option<String>)
    ensures
        match r {
            Some(name) => scope_of(*b) == Some(name@),
            None => scope_of(*b) is None,
        },
{
    match &b.name {
        Some(name) => Some(name.clone()),
        None => None,
    }
}

/// Reads the job off the command line. Without a mode every backend is
/// updated. Installing and uninstalling are not implemented.
pub fn plan_job(args: &UpmArgs) -> (r: Result<Job, UpmError>)
    ensures
        match job_of(args.mode) {
            Some(job) => r matches Ok(j) && j.view() == job,
            None => r matches Err(e) && e.says(ErrorKind::Dispatch, "not implementation."@),
        },
{
    match &args.mode {
        None => Ok(Job { op: Operation::Update, scope: None }),
        Some(ActionMode::Update(b)) => Ok(Job { op: Operation::Update, scope: scope(b) }),
        Some(ActionMode::Outdated(b)) => Ok(Job { op: Operation::Outdated, scope: scope(b) }),
        Some(ActionMode::Upgrade(b)) => Ok(Job { op: Operation::Upgrade, scope: scope(b) }),
        Some(ActionMode::Install(_)) => Err(
            UpmError::new(ErrorKind::Dispatch, "not implementation."),
        ),
        Some(ActionMode::Uninstall(_)) => Err(
            UpmError::new(ErrorKind::Dispatch, "not implementation."),
        ),
    }
}

/// The two commands that start the workers of a controller that listens on
/// `port`: this program through `sudo`, which makes the privileged worker,
/// and this program as it is, which makes the plain one. Both are told the
/// port.
pub fn worker_commands(program: &str, port: u16) -> (r: (CommandLine, CommandLine))
    ensures
        r.0@ == command("sudo"@, seq![program@, worker_flag(port)]),
        r.1@ == command(program@, seq![worker_flag(port)]),
{
    let flag = worker_arg(port);
    let elevated = CommandLine::new("sudo").arg(program).arg(flag.as_str());
    let plain = CommandLine::new(program).arg(flag.as_str());
    assert(elevated@.args =~= seq![program@, worker_flag(port)]);
    assert(plain@.args =~= seq![worker_flag(port)]);
    (elevated, plain)
}

/// The two roles of a session.
#[derive(Debug, Clone, Copy, PartialEq, Eq, Structural)]
pub enum Role {
    /// The worker that runs with elevated privilege.
    Root,
    /// The worker that runs as the user.
    Normal,
}

/// The two connections, by the order in which they were accepted.
#[derive(Debug, Clone, Copy, PartialEq, Eq, Structural)]
pub enum Slot {
    First,
    Second,
}

impl Slot {
    pub open spec fn other(self) -> Slot {
        match self {
            Slot::First => Slot::Second,
            Slot::Second => Slot::First,
        }
    }
}

/// Which connection plays which role.
#[derive(Debug, Clone, Copy, PartialEq, Eq, Structural)]
pub struct Roles {
    pub root: Slot,
    pub normal: Slot,
}

/// The roles that two handshake answers give: the connection that reported
/// privilege is root and the other is normal. Two equal answers give none.
pub open spec fn roles_for(first: bool, second: bool) -> Option<Roles> {
    if first && !second {
        Some(Roles { root: Slot::First, normal: Slot::Second })
    } else if !first && second {
        Some(Roles { root: Slot::Second, normal: Slot::First })
    } else {
        None
    }
}

/// The message of the error for two workers with the same privilege.
pub open spec fn same_privilege_text() -> Seq<char> {
    "exactly one worker must be privileged."@
}

/// Assigns the roles from the two handshake answers. Two workers that
/// report the same privilege cannot be told apart, and the session is
/// refused.
pub fn assign_roles(first: HandeshakeResult, second: HandeshakeResult) -> (r: Result<
    Roles,
    UpmError,
>)
    ensures
        match roles_for(first.privilige, second.privilige) {
            Some(roles) => r == Ok::<Roles, UpmError>(roles),
            None => r matches Err(e) && e.says(ErrorKind::Invariant, same_privilege_text()),
        },
{
    if first.privilige && !second.privilige {
        Ok(Roles { root: Slot::First, normal: Slot::Second })
    } else if !first.privilige && second.privilige {
        Ok(Roles { root: Slot::Second, normal: Slot::First })
    } else {
        Err(UpmError::new(ErrorKind::Invariant, "exactly one worker must be privileged."))
    }
}

/// Roles are assigned exactly when the two answers differ; root is then the
/// connection that reported privilege, normal is the other one, and this is
/// so in whichever order the two connections were accepted.
pub proof fn lemma_roles_follow_privilege(first: bool, second: bool)
    ensures
        roles_for(first, second) is Some <==> first != second,
        roles_for(first, second) matches Some(roles) ==> {
            &&& roles.normal == roles.root.other()
            &&& (roles.root == Slot::First <==> first)
            &&& (roles.root == Slot::Second <==> second)
        },
        roles_for(first, second) matches Some(roles) ==> roles_for(second, first) == Some(
            Roles { root: roles.root.other(), normal: roles.normal.other() },
        ),
{
}

/// Where an operation on a backend goes.
#[derive(Debug, Clone, Copy, PartialEq, Eq, Structural)]
pub enum Route {
    /// Nowhere: the backend's tool is not installed. No call is made.
    Skip,
    /// To the worker of the given role.
    To(Role),
}

/// The route of `op` on a backend with the given setup: none where the tool
/// is not installed, else the root worker if the operation's own flag asks
/// for privilege and the normal worker if it does not.
pub open spec fn route_for(setup: BackendSetup, op: Operation) -> Route {
    match setup {
        BackendSetup::NotInstalled => Route::Skip,
        BackendSetup::Installed(privilege) => if privilege.needs_root(op) {
            Route::To(Role::Root)
        } else {
            Route::To(Role::Normal)
        },
    }
}

pub fn route(setup: &BackendSetup, op: Operation) -> (r: Route)
    ensures
        r == route_for(*setup, op),
{
    match setup {
        BackendSetup::NotInstalled => Route::Skip,
        BackendSetup::Installed(privilege) => if privilege.requires_root(op) {
            Route::To(Role::Root)
        } else {
            Route::To(Role::Normal)
        },
    }
}

/// What is to be done about one operation on one backend.
#[derive(Debug, PartialEq, Eq)]
pub enum Action {
    /// Nothing can be done: the setup lookup failed with this error.
    Fail(UpmError),
    /// Nothing is to be done: the backend's tool is not installed.
    Skip,
    /// The call is to be sent to the worker of the role.
    Send { role: Role, call: Call },
}

/// The action that fits a setup lookup: its failure is passed on; a backend
/// that is not installed is skipped; for any other the operation's call,
/// with the backend's name, goes to the worker that the route names.
pub open spec fn planned(setup: Probe, op: Operation, name: Seq<char>, action: Action) -> bool {
    match setup {
        Err(e) => action == Action::Fail(e),
        Ok(found) => match route_for(found, op) {
            Route::Skip => action == Action::Skip,
            Route::To(to) => action matches Action::Send { role, call } && role == to
                && call.method() == op.method() && call.backend_name() == Some(name),
        },
    }
}

/// Decides what to do about `op` on the backend `name`, given what the
/// setup lookup answered.
pub fn plan_item(setup: &Probe, op: Operation, name: &str) -> (action: Action)
    ensures
        planned(*setup, op, name@, action),
{
    match setup {
        Err(e) => Action::Fail(e.duplicate()),
        Ok(found) => match route(found, op) {
            Route::Skip => Action::Skip,
            Route::To(role) => Action::Send { role, call: call_for(op, name) },
        },
    }
}

/// An operation on a backend that is not installed is skipped, whatever the
/// operation and the backend: no call is planned and no error.
pub proof fn lemma_not_installed_is_skipped(op: Operation, name: Seq<char>, action: Action)
    requires
        planned(Ok(BackendSetup::NotInstalled), op, name, action),
    ensures
        action == Action::Skip,
{
}

/// An operation on an installed backend is sent to the root worker exactly
/// if that operation's flag is set, and to the normal worker otherwise.
pub proof fn lemma_route_follows_own_flag(
    privilege: crate::privilege::MethodPrivilege,
    op: Operation,
)
    ensures
        route_for(BackendSetup::Installed(privilege), op) == Route::To(
            if privilege.needs_root(op) {
                Role::Root
            } else {
                Role::Normal
            },
        ),
        route_for(BackendSetup::Installed(privilege), Operation::Update) == Route::To(Role::Root)
            <==> privilege.update,
        route_for(BackendSetup::Installed(privilege), Operation::Outdated) == Route::To(
            Role::Root,
        ) <==> privilege.outdated,
        route_for(BackendSetup::Installed(privilege), Operation::Upgrade) == Route::To(Role::Root)
            <==> privilege.upgrade,
{
}

/// The session of a controller with its two workers, after the handshake.
pub struct Controller<W> {
    pub normal_worker: W,
    pub root_worker: W,
}

/// What became of one operation on one backend.
#[derive(Debug, PartialEq, Eq)]
pub struct ItemReport {
    /// The backend's name.
    pub name: String,
    /// What the setup lookup answered.
    pub setup: Probe,
    /// The worker's reply; none where no call was made; or the error.
    pub outcome: Result<Option<Reply>, UpmError>,
}

impl ItemReport {
    /// The route that the setup gives the operation, where the setup was
    /// found. It is read off the setup; it is no record of a call.
    pub open spec fn route(self, op: Operation) -> Option<Route> {
        match self.setup {
            Ok(setup) => Some(route_for(setup, op)),
            Err(_) => None,
        }
    }

    /// The report fits the operation: a failed lookup is the outcome; a
    /// backend that is not installed has no reply and no error; any other
    /// has the reply of a worker to that operation, or that worker's error.
    pub open spec fn fits(self, op: Operation) -> bool {
        match self.setup {
            Err(e) => self.outcome == Err::<Option<Reply>, UpmError>(e),
            Ok(setup) => match route_for(setup, op) {
                Route::Skip => self.outcome == Ok::<Option<Reply>, UpmError>(None),
                Route::To(_) => match self.outcome {
                    Ok(Some(reply)) => reply.method() == op.method(),
                    Ok(None) => false,
                    Err(_) => true,
                },
            },
        }
    }

    /// Whether the operation failed.
    pub fn failed(&self) -> (b: bool)
        ensures
            b == (self.outcome is Err),
    {
        self.outcome.is_err()
    }
}

/// What a report holds of a worker's answer to a call: the reply, or the
/// error as it is.
pub open spec fn sent_outcome(answer: Result<Reply, UpmError>) -> Result<Option<Reply>, UpmError> {
    match answer {
        Ok(reply) => Ok(Some(reply)),
        Err(e) => Err(e),
    }
}

impl<W: Router> Controller<W> {
    /// The worker that plays `role`.
    pub open spec fn worker_of(&self, role: Role) -> W {
        match role {
            Role::Root => self.root_worker,
            Role::Normal => self.normal_worker,
        }
    }

    /// `outcome` is what comes of carrying `action` out. A failure is the
    /// outcome and a skip has none, both without a call. A call that is to
    /// be sent is handed to the worker of its role, and to no other, and the
    /// outcome is made of that worker's answer.
    pub open spec fn performed(
        &self,
        action: Action,
        outcome: Result<Option<Reply>, UpmError>,
    ) -> bool {
        match action {
            Action::Fail(e) => outcome == Err::<Option<Reply>, UpmError>(e),
            Action::Skip => outcome == Ok::<Option<Reply>, UpmError>(None),
            Action::Send { role, call } => exists|answer: Result<Reply, UpmError>|
                #[trigger] dispatched(&self.worker_of(role), call, answer) && outcome
                    == sent_outcome(answer),
        }
    }

    /// The report is what comes of `op` on the report's backend: the action
    /// that its setup plans was carried out, and the outcome is the report's.
    pub open spec fn carried_out(&self, op: Operation, report: ItemReport) -> bool {
        exists|action: Action| #[trigger]
            planned(report.setup, op, report.name@, action) && self.performed(
                action,
                report.outcome,
            )
    }

    /// What a job comes to, given the registered names and the cache before
    /// and after it.
    ///
    /// A mode that is not implemented is an error and touches nothing. A job
    /// on one backend has one report, carried out for the operation, and the
    /// cache has gone through one lookup of that backend. A job on all
    /// backends has one report for each registered name, in the order of
    /// registration, each carried out for the operation, and the setup of
    /// each is cached afterwards as its report has it.
    pub open spec fn job_done(
        &self,
        names: Seq<Seq<char>>,
        before: Map<Seq<char>, Probe>,
        mode: Option<ActionMode>,
        r: Result<Vec<ItemReport>, UpmError>,
        after: Map<Seq<char>, Probe>,
    ) -> bool {
        match job_of(mode) {
            None => {
                &&& r matches Err(e) && e.says(ErrorKind::Dispatch, "not implementation."@)
                &&& after == before
            },
            Some((op, Some(name))) => {
                &&& r matches Ok(reports) && reports@.len() == 1 && reports@[0].name@ == name
                    && reports@[0].fits(op) && self.carried_out(op, reports@[0]) && lookup_step(
                    names,
                    before,
                    name,
                    reports@[0].setup,
                    after,
                )
            },
            Some((op, None)) => {
                &&& r matches Ok(reports) && reports@.len() == names.len() && forall|i: int|
                    0 <= i < reports@.len() ==> {
                        &&& (#[trigger] reports@[i]).name@ == names[i]
                        &&& reports@[i].fits(op)
                        &&& self.carried_out(op, reports@[i])
                        &&& cached_in(after, names[i]) == Some(reports@[i].setup)
                    }
            },
        }
    }

    /// `r` is what two handshake answers make of the two connections: the
    /// worker that reported privilege is `root_worker`, the other is
    /// `normal_worker`, whichever connection each came in on; two equal
    /// answers are refused.
    pub open spec fn assigned(
        first: W,
        second: W,
        a: HandeshakeResult,
        b: HandeshakeResult,
        r: Result<Controller<W>, UpmError>,
    ) -> bool {
        match roles_for(a.privilige, b.privilige) {
            Some(roles) => r matches Ok(ctl) && ctl.root_worker == (if roles.root == Slot::First {
                first
            } else {
                second
            }) && ctl.normal_worker == (if roles.normal == Slot::First {
                first
            } else {
                second
            }),
            None => r matches Err(e) && e.says(ErrorKind::Invariant, same_privilege_text()),
        }
    }

    /// `r` is what comes of shaking hands with both workers: the first
    /// worker was asked, with `pid`; if it failed, that failure is `r`; else
    /// the second was asked, with `pid`; if it failed, that failure is `r`;
    /// else `r` is what the two answers make of the two connections.
    pub open spec fn established(
        first: W,
        second: W,
        pid: u32,
        r: Result<Controller<W>, UpmError>,
    ) -> bool {
        exists|a: Result<HandeshakeResult, UpmError>|
            #[trigger] call_ensures(W::handshake, (&first, HandeshakeParams { pid }), a) && match a {
                Err(e) => r == Err::<Controller<W>, UpmError>(e),
                Ok(x) => exists|b: Result<HandeshakeResult, UpmError>|
                    #[trigger] call_ensures(W::handshake, (&second, HandeshakeParams { pid }), b)
                        && match b {
                        Err(e) => r == Err::<Controller<W>, UpmError>(e),
                        Ok(y) => Self::assigned(first, second, x, y, r),
                    },
            }
    }

    /// Binds the two connections to roles: the connection in the root slot
    /// becomes `root_worker`, and the other one `normal_worker`.
    pub fn bind(first: W, second: W, roles: Roles) -> (ctl: Controller<W>)
        ensures
            roles.root == Slot::First ==> ctl.root_worker == first && ctl.normal_worker == second,
            roles.root == Slot::Second ==> ctl.root_worker == second && ctl.normal_worker == first,
    {
        match roles.root {
            Slot::First => Controller { normal_worker: second, root_worker: first },
            Slot::Second => Controller { normal_worker: first, root_worker: second },
        }
    }

    /// Binds the two connections to their roles by their handshake answers.
    /// The worker that reported privilege becomes `root_worker`, whichever
    /// connection it came in on.
    pub fn assign(
        first: W,
        second: W,
        a: HandeshakeResult,
        b: HandeshakeResult,
    ) -> (r: Result<Controller<W>, UpmError>)
        ensures
            Self::assigned(first, second, a, b, r),
    {
        match assign_roles(a, b) {
            Ok(roles) => Ok(Controller::bind(first, second, roles)),
            Err(e) => Err(e),
        }
    }

    /// Shakes hands with both workers, the first connection first, and binds
    /// them to their roles. A worker's failure to answer ends the session
    /// with that failure, and so do two workers with the same privilege.
    pub fn establish(first: W, second: W, pid: u32) -> (r: Result<Controller<W>, UpmError>)
        ensures
            Self::established(first, second, pid, r),
            r matches Ok(ctl) ==> (ctl.root_worker == first && ctl.normal_worker == second) || (
            ctl.root_worker == second && ctl.normal_worker == first),
    {
        let answer = first.handshake(HandeshakeParams { pid });
        let ghost ga = answer;
        assert(call_ensures(W::handshake, (&first, HandeshakeParams { pid }), ga));
        let a = match answer {
            Ok(a) => a,
            Err(e) => {
                return Err(e);
            },
        };
        let answer = second.handshake(HandeshakeParams { pid });
        let ghost gb = answer;
        assert(call_ensures(W::handshake, (&second, HandeshakeParams { pid }), gb));
        let b = match answer {
            Ok(b) => b,
            Err(e) => {
                return Err(e);
            },
        };
        Controller::assign(first, second, a, b)
    }

    /// The worker that plays `role`.
    pub fn worker(&self, role: Role) -> (w: &W)
        ensures
            *w == self.worker_of(role),
    {
        match role {
            Role::Root => &self.root_worker,
            Role::Normal => &self.normal_worker,
        }
    }

    /// Carries out `op` on the backend `name`: looks its setup up, which
    /// probes it the first time, and sends the call to the worker that the
    /// setup asks for. A backend that is not installed is passed over
    /// without a call and without an error.
    pub fn do_job_item<B: UpmBackend>(
        &self,
        router: &mut WorkerRouter<B>,
        op: Operation,
        name: &str,
    ) -> (report: ItemReport)
        ensures
            report.name@ == name@,
            report.fits(op),
            self.carried_out(op, report),
            old(router).same_backends(final(router)),
            lookup_step(
                old(router).names(),
                old(router).cache(),
                name@,
                report.setup,
                final(router).cache(),
            ),
            old(router).probes(name@, report.setup),
    {
        let setup = router.info(name);
        let action = plan_item(&setup, op, name);
        let ghost planned_action = action;
        let outcome = self.perform(action);
        let report = ItemReport { name: String::from_str(name), setup, outcome };
        assert(planned(report.setup, op, report.name@, planned_action));
        report
    }

    /// Carries an action out. Only a `Send` reaches a worker, and it
    /// reaches the worker of its role; a reply is one to the call sent.
    pub fn perform(&self, action: Action) -> (outcome: Result<Option<Reply>, UpmError>)
        ensures
            self.performed(action, outcome),
            match action {
                Action::Fail(e) => outcome == Err::<Option<Reply>, UpmError>(e),
                Action::Skip => outcome == Ok::<Option<Reply>, UpmError>(None),
                Action::Send { role, call } => match outcome {
                    Ok(Some(reply)) => reply.method() == call.method(),
                    Ok(None) => false,
                    Err(_) => true,
                },
            },
    {
        match action {
            Action::Fail(e) => Err(e),
            Action::Skip => Ok(None),
            Action::Send { role, call } => {
                let answer = dispatch(self.worker(role), call);
                assert(dispatched(&self.worker_of(role), call, answer));
                reported(answer)
            },
        }
    }

    /// Refreshes the index of the backend `name`.
    pub fn do_job_update_item<B: UpmBackend>(
        &self,
        router: &mut WorkerRouter<B>,
        name: &str,
    ) -> (report: ItemReport)
        ensures
            report.name@ == name@,
            report.fits(Operation::Update),
            self.carried_out(Operation::Update, report),
            old(router).same_backends(final(router)),
            lookup_step(
                old(router).names(),
                old(router).cache(),
                name@,
                report.setup,
                final(router).cache(),
            ),
            old(router).probes(name@, report.setup),
    {
        self.do_job_item(router, Operation::Update, name)
    }

    /// Lists the outdated packages of the backend `name`.
    pub fn do_job_outdated_item<B: UpmBackend>(
        &self,
        router: &mut WorkerRouter<B>,
        name: &str,
    ) -> (report: ItemReport)
        ensures
            report.name@ == name@,
            report.fits(Operation::Outdated),
            self.carried_out(Operation::Outdated, report),
            old(router).same_backends(final(router)),
            lookup_step(
                old(router).names(),
                old(router).cache(),
                name@,
                report.setup,
                final(router).cache(),
            ),
            old(router).probes(name@, report.setup),
    {
        self.do_job_item(router, Operation::Outdated, name)
    }

    /// Upgrades the packages of the backend `name`.
    pub fn do_job_upgrade_item<B: UpmBackend>(
        &self,
        router: &mut WorkerRouter<B>,
        name: &str,
    ) -> (report: ItemReport)
        ensures
            report.name@ == name@,
            report.fits(Operation::Upgrade),
            self.carried_out(Operation::Upgrade, report),
            old(router).same_backends(final(router)),
            lookup_step(
                old(router).names(),
                old(router).cache(),
                name@,
                report.setup,
                final(router).cache(),
            ),
            old(router).probes(name@, report.setup),
    {
        self.do_job_item(router, Operation::Upgrade, name)
    }

    /// Carries out `op` on every registered backend, in the order of
    /// registration. Each backend gets its own report: a failure of one
    /// does not keep the others from their turn. Afterwards the setup of
    /// every registered backend is cached as its report has it.
    pub fn do_job_full<B: UpmBackend>(
        &self,
        router: &mut WorkerRouter<B>,
        op: Operation,
    ) -> (reports: Vec<ItemReport>)
        ensures
            old(router).same_backends(final(router)),
            reports@.len() == old(router).names().len(),
            forall|i: int|
                0 <= i < reports@.len() ==> {
                    &&& (#[trigger] reports@[i]).name@ == old(router).names()[i]
                    &&& reports@[i].fits(op)
                    &&& self.carried_out(op, reports@[i])
                    &&& final(router).cached(old(router).names()[i]) == Some(reports@[i].setup)
                    &&& old(router).probes(reports@[i].name@, reports@[i].setup)
                },
            forall|name: Seq<char>|
                old(router).cached(name) is Some ==> #[trigger] final(router).cached(name) == old(
                    router,
                ).cached(name),
    {
        let names = router.backend_names();
        let ghost all = router.names();
        let ghost start = router.cache();
        let ghost first = *router;
        let mut reports: Vec<ItemReport> = Vec::new();
        let mut i: usize = 0;
        while i < names.len()
            invariant
                i <= names@.len(),
                names@.map_values(|s: String| s@) == all,
                first.names() == all,
                first.same_backends(router),
                reports@.len() == i,
                forall|j: int|
                    0 <= j < i ==> {
                        &&& (#[trigger] reports@[j]).name@ == all[j]
                        &&& reports@[j].fits(op)
                        &&& self.carried_out(op, reports@[j])
                        &&& cached_in(router.cache(), all[j]) == Some(reports@[j].setup)
                        &&& first.probes(reports@[j].name@, reports@[j].setup)
                    },
                all.no_duplicates(),
                first.cache() == start,
                forall|k: int|
                    i <= k < all.len() ==> cached_in(router.cache(), #[trigger] all[k]) == cached_in(
                        start,
                        all[k],
                    ),
                forall|name: Seq<char>|
                    cached_in(start, name) is Some ==> #[trigger] cached_in(router.cache(), name)
                        == cached_in(start, name),
            decreases names@.len() - i,
        {
            let ghost before = router.cache();
            let ghost was = *router;
            let report = self.do_job_item(router, op, names[i].as_str());
            proof {
                assert(all[i as int] == names@[i as int]@);
                assert(all.contains(all[i as int]));
                assert forall|name: Seq<char>| cached_in(start, name) is Some implies #[trigger] cached_in(
                    router.cache(),
                    name,
                ) == cached_in(start, name) by {
                    assert(cached_in(before, name) == cached_in(start, name));
                }
                assert forall|name: Seq<char>| first.has(name) implies #[trigger] first.backend(
                    name,
                ) == router.backend(name) by {
                    assert(was.backend(name) == router.backend(name));
                }
                assert(cached_in(before, all[i as int]) == cached_in(start, all[i as int]));
                assert(first.backend(all[i as int]) == was.backend(all[i as int]));
                assert(first.probes(report.name@, report.setup));
                assert forall|k: int| i < k < all.len() implies cached_in(
                    router.cache(),
                    #[trigger] all[k],
                ) == cached_in(start, all[k]) by {
                    assert(all[k] != all[i as int]);
                    assert(cached_in(before, all[k]) == cached_in(start, all[k]));
                }
            }
            reports.push(report);
            i = i + 1;
        }
        reports
    }

    /// Carries out what the command line asks for: the operation on the one
    /// backend named, or on every registered backend.
    pub fn do_job<B: UpmBackend>(
        &self,
        args: &UpmArgs,
        router: &mut WorkerRouter<B>,
    ) -> (r: Result<Vec<ItemReport>, UpmError>)
        ensures
            old(router).same_backends(final(router)),
            self.job_done(
                old(router).names(),
                old(router).cache(),
                args.mode,
                r,
                final(router).cache(),
            ),
            r matches Ok(reports) ==> forall|i: int|
                0 <= i < reports@.len() ==> old(router).probes(
                    (#[trigger] reports@[i]).name@,
                    reports@[i].setup,
                ),
    {
        let job = match plan_job(args) {
            Ok(job) => job,
            Err(e) => {
                return Err(e);
            },
        };
        match &job.scope {
            Some(name) => {
                let report = self.do_job_item(router, job.op, name.as_str());
                let mut reports: Vec<ItemReport> = Vec::new();
                reports.push(report);
                Ok(reports)
            },
            None => Ok(self.do_job_full(router, job.op)),
        }
    }
}

/// What a report holds of a worker's answer to a call: the reply, or the
/// error as it is.
pub fn reported(answer: Result<Reply, UpmError>) -> (outcome: Result<Option<Reply>, UpmError>)
    ensures
        outcome == sent_outcome(answer),
{
    match answer {
        Ok(reply) => Ok(Some(reply)),
        Err(e) => Err(e),
    }
}

/// A report that was carried out for an operation fits it: a reply in it is
/// one to that operation.
pub proof fn lemma_carried_out_fits<W: Router>(ctl: Controller<W>, op: Operation, report: ItemReport)
    requires
        ctl.carried_out(op, report),
    ensures
        report.fits(op),
{
}

/// An operation on a name that no backend is registered under fails with
/// the not-found error, which quotes the name; nothing is planned but that
/// failure, so no worker is called; and the cache stays as it is. This is
/// so whatever the cache holds.
pub proof fn lemma_unregistered_item_fails<W: Router>(
    ctl: Controller<W>,
    names: Seq<Seq<char>>,
    before: Map<Seq<char>, Probe>,
    op: Operation,
    report: ItemReport,
    after: Map<Seq<char>, Probe>,
)
    requires
        !names.contains(report.name@),
        lookup_step(names, before, report.name@, report.setup, after),
        ctl.carried_out(op, report),
    ensures
        report.setup matches Err(e) && e.says(
            ErrorKind::Dispatch,
            crate::registry::not_found_text(report.name@),
        ),
        report.outcome == Err::<Option<Reply>, UpmError>(report.setup->Err_0),
        forall|action: Action| #[trigger]
            planned(report.setup, op, report.name@, action) ==> action is Fail,
        after == before,
{
}

/// What a run of the controller came to: the session, so that it can be
/// shut down, and the reports or the reason why there are none.
pub struct Run<W> {
    pub controller: Controller<W>,
    pub outcome: Result<Vec<ItemReport>, UpmError>,
}

/// Runs the controller's part of a session on two connected workers: the
/// handshake, the roles, and the job from the command line. No operation is
/// sent before the roles are settled: a session that is not established
/// ends with the failure of the handshake, and the registry is as it was.
pub fn run_as_controller<W: Router, B: UpmBackend>(
    args: &UpmArgs,
    first: W,
    second: W,
    router: &mut WorkerRouter<B>,
) -> (r: Result<Run<W>, UpmError>)
    ensures
        old(router).same_backends(final(router)),
        r is Err ==> final(router).cache() == old(router).cache(),
        exists|pid: u32, met: Result<Controller<W>, UpmError>| #[trigger]
            Controller::established(first, second, pid, met) && match met {
                Err(e) => r == Err::<Run<W>, UpmError>(e),
                Ok(ctl) => r matches Ok(run) && run.controller == ctl && ctl.job_done(
                    old(router).names(),
                    old(router).cache(),
                    args.mode,
                    run.outcome,
                    final(router).cache(),
                ),
            },
        r matches Ok(run) ==> (run.outcome matches Ok(reports) ==> forall|i: int|
            0 <= i < reports@.len() ==> old(router).probes(
                (#[trigger] reports@[i]).name@,
                reports@[i].setup,
            )),
        r matches Ok(run) ==> (run.controller.root_worker == first && run.controller.normal_worker
            == second) || (run.controller.root_worker == second && run.controller.normal_worker
            == first),
{
    let pid = current_process_id();
    let met = Controller::establish(first, second, pid);
    let ghost seen = met;
    let controller = match met {
        Ok(controller) => controller,
        Err(e) => {
            assert(Controller::established(first, second, pid, seen));
            return Err(e);
        },
    };
    let outcome = controller.do_job(args, router);
    assert(Controller::established(first, second, pid, seen));
    Ok(Run { controller, outcome })
}

/// The line that shows one outdated package.
pub open spec fn package_line(item: crate::rpc::OutdateItemView) -> Seq<char> {
    item.name + ": "@ + item.current_version + " -> "@ + item.target_version
}

/// The lines that show the outdated packages, one for each and in their
/// order.
pub fn list_package(pkg: &OutdatedResult) -> (lines: Vec<String>)
    ensures
        lines@.len() == pkg.pkgs@.len(),
        forall|i: int|
            0 <= i < lines@.len() ==> (#[trigger] lines@[i])@ == package_line(pkg.pkgs@[i]@),
{
    let mut lines: Vec<String> = Vec::new();
    let mut i: usize = 0;
    while i < pkg.pkgs.len()
        invariant
            i <= pkg.pkgs@.len(),
            lines@.len() == i,
            forall|j: int| 0 <= j < i ==> (#[trigger] lines@[j])@ == package_line(pkg.pkgs@[j]@),
        decreases pkg.pkgs@.len() - i,
    {
        let item = &pkg.pkgs[i];
        let mut line = item.name.clone();
        line.append(": ");
        line.append(item.current_version.as_str());
        line.append(" -> ");
        line.append(item.target_version.as_str());
        lines.push(line);
        i = i + 1;
    }
    lines
}

} // verus!
