use serde_json::Value;
use std::cell::{Cell, RefCell};
use std::rc::Rc;
use upm::error::{ErrorKind, UpmError};
use upm::host::{
    assign_roles, call_for, list_package, plan_item, plan_job, reported, route, run_as_controller,
    Action,
    ActionMode, BackendName, Controller, ItemReport, Job, PackageName, Role, Roles, Route, Slot,
    UpmArgs,
};
use upm::privilege::{process_id, reject_privilege_of, require_privilege_of, Operation};
use upm::registry::{copy_probe, handshake_result, not_found, update_result, upgrade_result};
use upm::rpc::client::Client;
use upm::rpc::server::{convert_result_to_response, Call, Reply, Router, Server};
use upm::rpc::{
    HandeshakeParams, HandeshakeResult, Method, OutdateItem, OutdatedParams, OutdatedResult,
    RpcError, RpcRequest, RpcResponse, RpcResponseKind, UpdateParams, UpdateResult,
    UpgradeParams, UpgradeResult,
};
use upm::{
    reject_privilege, require_privilege, BackendSetup, MethodPrivilege, UpmBackend, WorkerRouter,
};

#[derive(Clone)]
struct Counters {
    probes: Rc<Cell<u32>>,
    updates: Rc<Cell<u32>>,
    outdateds: Rc<Cell<u32>>,
    upgrades: Rc<Cell<u32>>,
}

impl Counters {
    fn new() -> Counters {
        Counters {
            probes: Rc::new(Cell::new(0)),
            updates: Rc::new(Cell::new(0)),
            outdateds: Rc::new(Cell::new(0)),
            upgrades: Rc::new(Cell::new(0)),
        }
    }
}

struct FakeBackend {
    setup: Result<BackendSetup, UpmError>,
    update: Result<(), UpmError>,
    counters: Counters,
}

impl FakeBackend {
    fn with(setup: Result<BackendSetup, UpmError>, counters: &Counters) -> FakeBackend {
        FakeBackend { setup, update: Ok(()), counters: counters.clone() }
    }

    fn installed(update: bool, outdated: bool, upgrade: bool, counters: &Counters) -> FakeBackend {
        FakeBackend::with(
            Ok(BackendSetup::Installed(MethodPrivilege { update, outdated, upgrade })),
            counters,
        )
    }

    fn idle() -> FakeBackend {
        FakeBackend::installed(false, false, false, &Counters::new())
    }
}

fn bump(cell: &Rc<Cell<u32>>) {
    cell.set(cell.get() + 1);
}

impl UpmBackend for FakeBackend {
    fn setup(&self) -> Result<BackendSetup, UpmError> {
        bump(&self.counters.probes);
        self.setup.clone()
    }

    fn update(&self) -> Result<(), UpmError> {
        bump(&self.counters.updates);
        self.update.clone()
    }

    fn outdated(&self) -> Result<OutdatedResult, UpmError> {
        bump(&self.counters.outdateds);
        Ok(OutdatedResult {
            pkgs: vec![OutdateItem {
                name: "vim".to_string(),
                vendor: "stable".to_string(),
                current_version: "9.0".to_string(),
                target_version: "9.1".to_string(),
            }],
        })
    }

    fn upgrade(&self) -> Result<(), UpmError> {
        bump(&self.counters.upgrades);
        Ok(())
    }
}

struct FakeWorker {
    privileged: bool,
    router: WorkerRouter<FakeBackend>,
    calls: Rc<RefCell<Vec<String>>>,
}

impl FakeWorker {
    fn new(privileged: bool, router: WorkerRouter<FakeBackend>) -> FakeWorker {
        FakeWorker { privileged, router, calls: Rc::new(RefCell::new(Vec::new())) }
    }

    fn bare(privileged: bool) -> FakeWorker {
        FakeWorker::new(privileged, WorkerRouter::empty())
    }

    fn log(&self, what: &str, name: &str) {
        self.calls.borrow_mut().push(format!("{} {}", what, name));
    }

    fn calls(&self) -> Vec<String> {
        self.calls.borrow().clone()
    }
}

impl Router for FakeWorker {
    fn handshake(&self, _: HandeshakeParams) -> Result<HandeshakeResult, UpmError> {
        Ok(HandeshakeResult { privilige: self.privileged })
    }

    fn update(&self, params: UpdateParams) -> Result<UpdateResult, UpmError> {
        self.log("update", &params.backend_name);
        self.router.update(params)
    }

    fn outdated(&self, params: OutdatedParams) -> Result<OutdatedResult, UpmError> {
        self.log("outdated", &params.backend_name);
        self.router.outdated(params)
    }

    fn upgrade(&self, params: UpgradeParams) -> Result<UpgradeResult, UpmError> {
        self.log("upgrade", &params.backend_name);
        self.router.upgrade(params)
    }
}

fn one_backend(name: &str, backend: FakeBackend) -> WorkerRouter<FakeBackend> {
    let mut router = WorkerRouter::empty();
    assert!(router.register(name, backend).is_ok());
    router
}

fn args(mode: Option<ActionMode>) -> UpmArgs {
    UpmArgs { mode, worker: 0 }
}

fn all() -> BackendName {
    BackendName { name: None }
}

fn only(name: &str) -> BackendName {
    BackendName { name: Some(name.to_string()) }
}

#[test]
fn registry_holds_the_three_native_backends() {
    let router = WorkerRouter::new(FakeBackend::idle(), FakeBackend::idle(), FakeBackend::idle());
    assert_eq!(router.backend_names(), vec!["apt", "brew", "flatpak"]);
    assert!(router.contains("apt"));
    assert!(router.contains("brew"));
    assert!(router.contains("flatpak"));
    assert!(!router.contains("yum"));
    assert!(!router.contains("Apt"));
    assert!(!router.contains(""));
    assert_eq!(router.cached_info("apt"), None);
}

#[test]
fn native_backends_are_probed_each_by_its_own_name() {
    let (a, b, f) = (Counters::new(), Counters::new(), Counters::new());
    let mut router = WorkerRouter::new(
        FakeBackend::installed(true, false, true, &a),
        FakeBackend::installed(false, false, false, &b),
        FakeBackend::with(Ok(BackendSetup::NotInstalled), &f),
    );
    assert_eq!(
        router.info("brew"),
        Ok(BackendSetup::Installed(MethodPrivilege {
            update: false,
            outdated: false,
            upgrade: false
        }))
    );
    assert_eq!((a.probes.get(), b.probes.get(), f.probes.get()), (0, 1, 0));
    assert_eq!(router.info("flatpak"), Ok(BackendSetup::NotInstalled));
    assert_eq!(
        router.info("apt"),
        Ok(BackendSetup::Installed(MethodPrivilege { update: true, outdated: false, upgrade: true }))
    );
    assert_eq!((a.probes.get(), b.probes.get(), f.probes.get()), (1, 1, 1));
}

#[test]
fn empty_registry_has_no_backend() {
    let mut router: WorkerRouter<FakeBackend> = WorkerRouter::empty();
    assert!(router.backend_names().is_empty());
    assert_eq!(router.info("apt"), Err(not_found("apt")));
}

#[test]
fn register_keeps_the_first_backend_of_a_name() {
    let first = Counters::new();
    let second = Counters::new();
    let mut router = WorkerRouter::empty();
    assert!(router.register("pm", FakeBackend::installed(true, true, true, &first)).is_ok());
    assert!(router.register("pm", FakeBackend::installed(false, false, false, &second)).is_err());
    assert!(router.register("other", FakeBackend::idle()).is_ok());
    assert_eq!(router.backend_names(), vec!["pm", "other"]);
    assert_eq!(
        router.info("pm"),
        Ok(BackendSetup::Installed(MethodPrivilege { update: true, outdated: true, upgrade: true }))
    );
    assert_eq!(first.probes.get(), 1);
    assert_eq!(second.probes.get(), 0);
}

#[test]
fn setup_is_probed_once_and_cached() {
    let counters = Counters::new();
    let mut router = one_backend("fake", FakeBackend::installed(true, false, true, &counters));
    assert_eq!(router.cached_info("fake"), None);
    assert_eq!(counters.probes.get(), 0);
    let first = router.info("fake");
    assert_eq!(counters.probes.get(), 1);
    let second = router.info("fake");
    assert_eq!(counters.probes.get(), 1);
    assert_eq!(first, second);
    assert_eq!(
        first,
        Ok(BackendSetup::Installed(MethodPrivilege { update: true, outdated: false, upgrade: true }))
    );
    assert_eq!(router.cached_info("fake"), Some(first));
    for _ in 0..5 {
        router.info("fake").unwrap();
    }
    assert_eq!(counters.probes.get(), 1);
}

#[test]
fn failed_probe_is_cached_too() {
    let counters = Counters::new();
    let failure = UpmError::new(ErrorKind::Backend, "brew is not found.");
    let mut router = one_backend("brew", FakeBackend::with(Err(failure.clone()), &counters));
    assert_eq!(router.info("brew"), Err(failure.clone()));
    assert_eq!(router.info("brew"), Err(failure.clone()));
    assert_eq!(counters.probes.get(), 1);
    assert_eq!(router.cached_info("brew"), Some(Err(failure)));
}

#[test]
fn cached_info_never_probes() {
    let counters = Counters::new();
    let router = one_backend("fake", FakeBackend::installed(true, false, true, &counters));
    assert_eq!(router.cached_info("fake"), None);
    assert_eq!(router.cached_info("nope"), None);
    assert_eq!(counters.probes.get(), 0);
}

#[test]
fn unknown_backend_is_a_dispatch_error_with_the_name_verbatim() {
    let counters = Counters::new();
    let mut router = one_backend("apt", FakeBackend::installed(true, false, true, &counters));
    for name in ["yum", "", "APT", "apt ", "it's", "päckchen", "a\nb"] {
        let expected = UpmError {
            kind: ErrorKind::Dispatch,
            message: format!("backend '{}' not found.", name),
        };
        assert_eq!(router.info(name), Err(expected.clone()));
        assert_eq!(router.cached_info(name), None);
        assert_eq!(
            router.update(UpdateParams { backend_name: name.to_string() }),
            Err(expected.clone())
        );
        assert_eq!(
            router.outdated(OutdatedParams { backend_name: name.to_string() }),
            Err(expected.clone())
        );
        assert_eq!(
            router.upgrade(UpgradeParams { backend_name: name.to_string() }),
            Err(expected.clone())
        );
        assert_eq!(not_found(name), expected);
    }
    assert_eq!(counters.probes.get(), 0);
    assert_eq!(counters.updates.get(), 0);
}

#[test]
fn router_delegates_to_the_named_backend() {
    let counters = Counters::new();
    let mut backend = FakeBackend::installed(true, false, true, &counters);
    backend.update = Err(UpmError::new(ErrorKind::Backend, "E: lock held"));
    let router = one_backend("apt", backend);
    assert_eq!(
        router.update(UpdateParams { backend_name: "apt".to_string() }),
        Err(UpmError::new(ErrorKind::Backend, "E: lock held"))
    );
    assert_eq!(
        router.upgrade(UpgradeParams { backend_name: "apt".to_string() }),
        Ok(UpgradeResult {})
    );
    let listed = router.outdated(OutdatedParams { backend_name: "apt".to_string() }).unwrap();
    assert_eq!(listed.pkgs.len(), 1);
    assert_eq!(listed.pkgs[0].target_version, "9.1");
    assert_eq!(
        (counters.updates.get(), counters.outdateds.get(), counters.upgrades.get()),
        (1, 1, 1)
    );
    assert_eq!(counters.probes.get(), 0);
}

#[test]
fn handshake_reports_the_privilege_of_the_process() {
    let router: WorkerRouter<FakeBackend> = WorkerRouter::empty();
    let expected = nix::unistd::geteuid().is_root();
    assert_eq!(
        router.handshake(HandeshakeParams { pid: 1 }),
        Ok(HandeshakeResult { privilige: expected })
    );
    assert_eq!(
        router.handshake(HandeshakeParams { pid: u32::MAX }),
        Ok(HandeshakeResult { privilige: expected })
    );
    assert_eq!(process_id(), nix::unistd::getpid().as_raw() as u32);
}

#[test]
fn handshake_result_ignores_the_pid() {
    for pid in [0, 1, 4711, u32::MAX] {
        assert!(handshake_result(HandeshakeParams { pid }, true).privilige);
        assert!(!handshake_result(HandeshakeParams { pid }, false).privilige);
    }
}

#[test]
fn privilege_checks_follow_the_process() {
    let root = nix::unistd::geteuid().is_root();
    assert_eq!(require_privilege().is_ok(), root);
    assert_eq!(reject_privilege().is_ok(), !root);
    assert_eq!(require_privilege_of(true), Ok(()));
    assert_eq!(reject_privilege_of(false), Ok(()));
    assert_eq!(
        require_privilege_of(false),
        Err(UpmError {
            kind: ErrorKind::Privilege,
            message: "This command requires root privilege.".to_string()
        })
    );
    assert_eq!(
        reject_privilege_of(true),
        Err(UpmError {
            kind: ErrorKind::Privilege,
            message: "This command does not require root privilege.".to_string()
        })
    );
}

#[test]
fn copy_probe_copies() {
    let ok = Ok(BackendSetup::NotInstalled);
    assert_eq!(copy_probe(&ok), ok);
    let err = Err(UpmError::new(ErrorKind::Backend, "x"));
    assert_eq!(copy_probe(&err), err);
}

#[test]
fn roles_follow_the_handshake_in_either_order() {
    let yes = HandeshakeResult { privilige: true };
    let no = HandeshakeResult { privilige: false };
    assert_eq!(assign_roles(yes, no), Ok(Roles { root: Slot::First, normal: Slot::Second }));
    assert_eq!(assign_roles(no, yes), Ok(Roles { root: Slot::Second, normal: Slot::First }));
}

#[test]
fn equal_handshakes_abort() {
    let expected = UpmError {
        kind: ErrorKind::Invariant,
        message: "exactly one worker must be privileged.".to_string(),
    };
    for value in [true, false] {
        let answer = HandeshakeResult { privilige: value };
        assert_eq!(assign_roles(answer, answer), Err(expected.clone()));
    }
}

#[test]
fn root_worker_is_the_one_that_reported_privilege() {
    let ctl = match Controller::establish(FakeWorker::bare(true), FakeWorker::bare(false), 1) {
        Ok(ctl) => ctl,
        Err(e) => panic!("{}", e.to_string()),
    };
    assert!(ctl.root_worker.privileged);
    assert!(!ctl.normal_worker.privileged);
    assert!(ctl.worker(Role::Root).privileged);
    assert!(!ctl.worker(Role::Normal).privileged);

    let ctl = match Controller::establish(FakeWorker::bare(false), FakeWorker::bare(true), 1) {
        Ok(ctl) => ctl,
        Err(e) => panic!("{}", e.to_string()),
    };
    assert!(ctl.root_worker.privileged);
    assert!(!ctl.normal_worker.privileged);
}

#[test]
fn assign_binds_by_the_answers_given() {
    let yes = HandeshakeResult { privilige: true };
    let no = HandeshakeResult { privilige: false };
    let first = FakeWorker::bare(false);
    let second = FakeWorker::bare(false);
    first.log("mark", "first");
    let ctl = Controller::assign(first, second, no, yes).ok().unwrap();
    assert_eq!(ctl.normal_worker.calls(), vec!["mark first"]);
    assert!(ctl.root_worker.calls().is_empty());
}

#[test]
fn controller_aborts_before_any_operation_when_privileges_are_equal() {
    for value in [true, false] {
        let counters = Counters::new();
        let first = FakeWorker::new(
            value,
            one_backend("fake", FakeBackend::installed(true, false, false, &counters)),
        );
        let second = FakeWorker::new(
            value,
            one_backend("fake", FakeBackend::installed(true, false, false, &counters)),
        );
        let (log1, log2) = (first.calls.clone(), second.calls.clone());
        let mut registry = one_backend("fake", FakeBackend::installed(true, false, false, &counters));
        let run = run_as_controller(
            &args(Some(ActionMode::Update(all()))),
            first,
            second,
            &mut registry,
        );
        match run {
            Ok(_) => panic!("the session must be refused"),
            Err(e) => {
                assert_eq!(e.kind(), ErrorKind::Invariant);
                assert_eq!(e.to_string(), "exactly one worker must be privileged.");
            }
        }
        assert!(log1.borrow().is_empty());
        assert!(log2.borrow().is_empty());
        assert_eq!(counters.probes.get(), 0);
        assert_eq!(counters.updates.get(), 0);
        assert_eq!(registry.cached_info("fake"), None);
    }
}

#[test]
fn route_reads_the_flag_of_the_operation() {
    let setup =
        BackendSetup::Installed(MethodPrivilege { update: true, outdated: false, upgrade: true });
    assert_eq!(route(&setup, Operation::Update), Route::To(Role::Root));
    assert_eq!(route(&setup, Operation::Outdated), Route::To(Role::Normal));
    assert_eq!(route(&setup, Operation::Upgrade), Route::To(Role::Root));
    for op in [Operation::Update, Operation::Outdated, Operation::Upgrade] {
        assert_eq!(route(&BackendSetup::NotInstalled, op), Route::Skip);
    }
}

#[test]
fn route_covers_every_combination_of_flags() {
    for bits in 0..8u8 {
        let p = MethodPrivilege {
            update: bits & 1 != 0,
            outdated: bits & 2 != 0,
            upgrade: bits & 4 != 0,
        };
        let setup = BackendSetup::Installed(p);
        let role = |flag: bool| if flag { Role::Root } else { Role::Normal };
        assert_eq!(route(&setup, Operation::Update), Route::To(role(p.update)));
        assert_eq!(route(&setup, Operation::Outdated), Route::To(role(p.outdated)));
        assert_eq!(route(&setup, Operation::Upgrade), Route::To(role(p.upgrade)));
        assert_eq!(p.requires_root(Operation::Update), p.update);
        assert_eq!(p.requires_root(Operation::Outdated), p.outdated);
        assert_eq!(p.requires_root(Operation::Upgrade), p.upgrade);
    }
}

#[test]
fn plan_follows_the_setup() {
    let failure = UpmError::new(ErrorKind::Backend, "probe failed");
    assert_eq!(
        plan_item(&Err(failure.clone()), Operation::Update, "apt"),
        Action::Fail(failure)
    );
    for op in [Operation::Update, Operation::Outdated, Operation::Upgrade] {
        assert_eq!(plan_item(&Ok(BackendSetup::NotInstalled), op, "apt"), Action::Skip);
    }
    let setup =
        Ok(BackendSetup::Installed(MethodPrivilege { update: true, outdated: false, upgrade: true }));
    assert_eq!(
        plan_item(&setup, Operation::Outdated, "apt"),
        Action::Send {
            role: Role::Normal,
            call: Call::Outdated(OutdatedParams { backend_name: "apt".to_string() })
        }
    );
    assert_eq!(
        plan_item(&setup, Operation::Update, "apt"),
        Action::Send {
            role: Role::Root,
            call: Call::Update(UpdateParams { backend_name: "apt".to_string() })
        }
    );
    assert_eq!(
        plan_item(&setup, Operation::Upgrade, "a b"),
        Action::Send {
            role: Role::Root,
            call: Call::Upgrade(UpgradeParams { backend_name: "a b".to_string() })
        }
    );
}

#[test]
fn only_a_send_reaches_a_worker() {
    let (ctl, _, worker_side, _) = session(false, false, false);
    assert_eq!(ctl.perform(Action::Skip), Ok(None));
    let failure = UpmError::new(ErrorKind::Dispatch, "backend 'x' not found.");
    assert_eq!(ctl.perform(Action::Fail(failure.clone())), Err(failure));
    assert!(ctl.root_worker.calls().is_empty());
    assert!(ctl.normal_worker.calls().is_empty());
    let sent = ctl.perform(Action::Send {
        role: Role::Root,
        call: Call::Upgrade(UpgradeParams { backend_name: "fake".to_string() }),
    });
    assert_eq!(sent, Ok(Some(Reply::Upgrade(UpgradeResult {}))));
    assert_eq!(ctl.root_worker.calls(), vec!["upgrade fake"]);
    assert!(ctl.normal_worker.calls().is_empty());
    let sent = ctl.perform(Action::Send {
        role: Role::Normal,
        call: Call::Update(UpdateParams { backend_name: "fake".to_string() }),
    });
    assert_eq!(sent, Ok(Some(Reply::Update(UpdateResult {}))));
    assert_eq!(ctl.normal_worker.calls(), vec!["update fake"]);
    assert_eq!(worker_side.probes.get(), 0);
}

fn session(
    update: bool,
    outdated: bool,
    upgrade: bool,
) -> (Controller<FakeWorker>, WorkerRouter<FakeBackend>, Counters, Counters) {
    let worker_side = Counters::new();
    let controller_side = Counters::new();
    let root = FakeWorker::new(
        true,
        one_backend("fake", FakeBackend::installed(update, outdated, upgrade, &worker_side)),
    );
    let normal = FakeWorker::new(
        false,
        one_backend("fake", FakeBackend::installed(update, outdated, upgrade, &worker_side)),
    );
    let ctl = Controller::establish(normal, root, 1).ok().unwrap();
    let registry =
        one_backend("fake", FakeBackend::installed(update, outdated, upgrade, &controller_side));
    (ctl, registry, worker_side, controller_side)
}

#[test]
fn outdated_goes_to_the_normal_worker_and_update_to_root() {
    let (ctl, mut registry, worker_side, controller_side) = session(true, false, true);

    let report = ctl.do_job_outdated_item(&mut registry, "fake");
    assert!(!report.failed());
    assert_eq!(ctl.normal_worker.calls(), vec!["outdated fake"]);
    assert!(ctl.root_worker.calls().is_empty());
    match &report.outcome {
        Ok(Some(Reply::Outdated(result))) => assert_eq!(result.pkgs[0].name, "vim"),
        other => panic!("unexpected outcome {:?}", other),
    }

    let report = ctl.do_job_update_item(&mut registry, "fake");
    assert_eq!(report.outcome, Ok(Some(Reply::Update(UpdateResult {}))));
    assert_eq!(ctl.root_worker.calls(), vec!["update fake"]);
    assert_eq!(ctl.normal_worker.calls(), vec!["outdated fake"]);

    let report = ctl.do_job_upgrade_item(&mut registry, "fake");
    assert_eq!(report.outcome, Ok(Some(Reply::Upgrade(UpgradeResult {}))));
    assert_eq!(ctl.root_worker.calls(), vec!["update fake", "upgrade fake"]);
    assert_eq!(ctl.normal_worker.calls(), vec!["outdated fake"]);

    assert_eq!(controller_side.probes.get(), 1);
    assert_eq!(worker_side.probes.get(), 0);
    assert_eq!(
        (worker_side.updates.get(), worker_side.outdateds.get(), worker_side.upgrades.get()),
        (1, 1, 1)
    );
}

#[test]
fn report_carries_name_and_setup() {
    let (ctl, mut registry, _, _) = session(false, true, false);
    let report = ctl.do_job_item(&mut registry, Operation::Outdated, "fake");
    assert_eq!(report.name, "fake");
    assert_eq!(
        report.setup,
        Ok(BackendSetup::Installed(MethodPrivilege {
            update: false,
            outdated: true,
            upgrade: false
        }))
    );
    assert_eq!(ctl.root_worker.calls(), vec!["outdated fake"]);
    assert!(ctl.normal_worker.calls().is_empty());
}

#[test]
fn not_installed_backend_is_skipped_without_call_or_error() {
    let counters = Counters::new();
    let ctl = Controller::establish(FakeWorker::bare(true), FakeWorker::bare(false), 1)
        .ok()
        .unwrap();
    let mut registry =
        one_backend("ghost", FakeBackend::with(Ok(BackendSetup::NotInstalled), &counters));
    for op in [Operation::Update, Operation::Outdated, Operation::Upgrade] {
        let report = ctl.do_job_item(&mut registry, op, "ghost");
        assert_eq!(
            report,
            ItemReport {
                name: "ghost".to_string(),
                setup: Ok(BackendSetup::NotInstalled),
                outcome: Ok(None),
            }
        );
        assert!(!report.failed());
    }
    assert!(ctl.root_worker.calls().is_empty());
    assert!(ctl.normal_worker.calls().is_empty());
    assert_eq!(counters.probes.get(), 1);
}

#[test]
fn failed_probe_fails_the_item_without_a_call() {
    let counters = Counters::new();
    let failure = UpmError::new(ErrorKind::Backend, "flatpak is not found.");
    let ctl = Controller::establish(FakeWorker::bare(true), FakeWorker::bare(false), 1)
        .ok()
        .unwrap();
    let mut registry = one_backend("flatpak", FakeBackend::with(Err(failure.clone()), &counters));
    let report = ctl.do_job_update_item(&mut registry, "flatpak");
    assert!(report.failed());
    assert_eq!(report.setup, Err(failure.clone()));
    assert_eq!(report.outcome, Err(failure));
    assert!(ctl.root_worker.calls().is_empty());
    assert!(ctl.normal_worker.calls().is_empty());
}

#[test]
fn unknown_backend_fails_the_item_with_its_name() {
    let (ctl, mut registry, _, _) = session(true, false, false);
    let report = ctl.do_job_upgrade_item(&mut registry, "pacman");
    let expected = UpmError {
        kind: ErrorKind::Dispatch,
        message: "backend 'pacman' not found.".to_string(),
    };
    assert_eq!(report.name, "pacman");
    assert_eq!(report.setup, Err(expected.clone()));
    assert_eq!(report.outcome, Err(expected));
    assert!(ctl.root_worker.calls().is_empty());
    assert!(ctl.normal_worker.calls().is_empty());
}

#[test]
fn worker_error_is_reported_as_it_is() {
    let worker_side = Counters::new();
    let mut failing = FakeBackend::installed(false, false, false, &worker_side);
    failing.update = Err(UpmError::new(ErrorKind::Backend, "E: no network"));
    let normal = FakeWorker::new(false, one_backend("fake", failing));
    let ctl = Controller::establish(FakeWorker::bare(true), normal, 1).ok().unwrap();
    let mut registry = one_backend("fake", FakeBackend::idle());
    let report = ctl.do_job_update_item(&mut registry, "fake");
    assert_eq!(report.outcome, Err(UpmError::new(ErrorKind::Backend, "E: no network")));
    assert!(report.failed());
}

#[test]
fn fleet_goes_on_after_a_failure() {
    let c = Counters::new();
    let mut broken = FakeBackend::installed(false, false, false, &c);
    broken.update = Err(UpmError::new(ErrorKind::Backend, "boom"));
    let mut workers = WorkerRouter::empty();
    assert!(workers.register("one", broken).is_ok());
    assert!(workers.register("two", FakeBackend::installed(false, false, false, &c)).is_ok());
    assert!(workers.register("three", FakeBackend::installed(false, false, false, &c)).is_ok());
    let normal = FakeWorker::new(false, workers);
    let ctl = Controller::establish(normal, FakeWorker::bare(true), 1).ok().unwrap();

    let mut registry = WorkerRouter::empty();
    assert!(registry.register("one", FakeBackend::idle()).is_ok());
    assert!(registry
        .register("two", FakeBackend::with(Ok(BackendSetup::NotInstalled), &Counters::new()))
        .is_ok());
    assert!(registry.register("three", FakeBackend::idle()).is_ok());
    assert!(registry.register("four", FakeBackend::idle()).is_ok());

    let reports = ctl.do_job_full(&mut registry, Operation::Update);
    let names: Vec<&str> = reports.iter().map(|r| r.name.as_str()).collect();
    assert_eq!(names, vec!["one", "two", "three", "four"]);
    assert_eq!(reports[0].outcome, Err(UpmError::new(ErrorKind::Backend, "boom")));
    assert_eq!(reports[1].outcome, Ok(None));
    assert_eq!(reports[2].outcome, Ok(Some(Reply::Update(UpdateResult {}))));
    assert_eq!(
        reports[3].outcome,
        Err(UpmError {
            kind: ErrorKind::Dispatch,
            message: "backend 'four' not found.".to_string()
        })
    );
    assert_eq!(ctl.normal_worker.calls(), vec!["update one", "update three", "update four"]);
    assert!(ctl.root_worker.calls().is_empty());
    for report in &reports {
        assert_eq!(registry.cached_info(&report.name), Some(report.setup.clone()));
    }
}

#[test]
fn job_is_read_off_the_command_line() {
    assert_eq!(plan_job(&args(None)), Ok(Job { op: Operation::Update, scope: None }));
    assert_eq!(
        plan_job(&args(Some(ActionMode::Update(only("apt"))))),
        Ok(Job { op: Operation::Update, scope: Some("apt".to_string()) })
    );
    assert_eq!(
        plan_job(&args(Some(ActionMode::Outdated(all())))),
        Ok(Job { op: Operation::Outdated, scope: None })
    );
    assert_eq!(
        plan_job(&args(Some(ActionMode::Upgrade(only("brew"))))),
        Ok(Job { op: Operation::Upgrade, scope: Some("brew".to_string()) })
    );
    let expected =
        UpmError { kind: ErrorKind::Dispatch, message: "not implementation.".to_string() };
    assert_eq!(
        plan_job(&args(Some(ActionMode::Install(PackageName { name: "vim".to_string() })))),
        Err(expected.clone())
    );
    assert_eq!(
        plan_job(&args(Some(ActionMode::Uninstall(PackageName { name: "vim".to_string() })))),
        Err(expected)
    );
}

#[test]
fn worker_port_tells_worker_from_controller() {
    assert_eq!(UpmArgs { mode: None, worker: 0 }.worker_port(), None);
    assert_eq!(UpmArgs { mode: None, worker: 1 }.worker_port(), Some(1));
    assert_eq!(UpmArgs { mode: None, worker: 65_535 }.worker_port(), Some(65_535));
}

#[test]
fn calls_name_operation_and_backend() {
    assert_eq!(
        call_for(Operation::Update, "apt"),
        Call::Update(UpdateParams { backend_name: "apt".to_string() })
    );
    assert_eq!(
        call_for(Operation::Outdated, "brew"),
        Call::Outdated(OutdatedParams { backend_name: "brew".to_string() })
    );
    assert_eq!(
        call_for(Operation::Upgrade, "flatpak"),
        Call::Upgrade(UpgradeParams { backend_name: "flatpak".to_string() })
    );
    assert_eq!(call_for(Operation::Upgrade, "x").target(), Method::Upgrade);
}

#[test]
fn named_job_touches_one_backend() {
    let (ctl, mut registry, _, controller_side) = session(true, false, false);
    assert!(registry.register("other", FakeBackend::idle()).is_ok());
    let reports =
        ctl.do_job(&args(Some(ActionMode::Update(only("fake")))), &mut registry).ok().unwrap();
    assert_eq!(reports.len(), 1);
    assert_eq!(reports[0].name, "fake");
    assert_eq!(ctl.root_worker.calls(), vec!["update fake"]);
    assert_eq!(controller_side.probes.get(), 1);
    assert_eq!(registry.cached_info("other"), None);
}

#[test]
fn unsupported_job_sends_nothing() {
    let (ctl, mut registry, _, controller_side) = session(true, false, false);
    let mode = ActionMode::Install(PackageName { name: "vim".to_string() });
    match ctl.do_job(&args(Some(mode)), &mut registry) {
        Ok(_) => panic!("installing is not implemented"),
        Err(e) => assert_eq!(e.to_string(), "not implementation."),
    }
    assert!(ctl.root_worker.calls().is_empty());
    assert!(ctl.normal_worker.calls().is_empty());
    assert_eq!(controller_side.probes.get(), 0);
}

#[test]
fn packages_are_listed_one_per_line() {
    let pkg = OutdatedResult {
        pkgs: vec![
            OutdateItem {
                name: "vim".to_string(),
                vendor: "stable".to_string(),
                current_version: "9.0".to_string(),
                target_version: "9.1".to_string(),
            },
            OutdateItem {
                name: "org.gimp.GIMP".to_string(),
                vendor: "flathub".to_string(),
                current_version: "2.10.34".to_string(),
                target_version: "2.10.36".to_string(),
            },
        ],
    };
    assert_eq!(list_package(&pkg), vec!["vim: 9.0 -> 9.1", "org.gimp.GIMP: 2.10.34 -> 2.10.36"]);
    assert!(list_package(&OutdatedResult { pkgs: vec![] }).is_empty());
}

fn object(pairs: Vec<(&str, Value)>) -> Value {
    let mut map = serde_json::Map::new();
    for (key, value) in pairs {
        map.insert(key.to_string(), value);
    }
    Value::Object(map)
}

fn params_to_value(call: &Call) -> Value {
    match call {
        Call::Handshake(p) => object(vec![("pid", Value::from(p.pid))]),
        Call::Update(p) => object(vec![("backend_name", Value::String(p.backend_name.clone()))]),
        Call::Outdated(p) => object(vec![("backend_name", Value::String(p.backend_name.clone()))]),
        Call::Upgrade(p) => object(vec![("backend_name", Value::String(p.backend_name.clone()))]),
    }
}

fn call_from_value(method: Method, params: &Value) -> Call {
    let name = || params["backend_name"].as_str().unwrap().to_string();
    match method {
        Method::Handshake => {
            Call::Handshake(HandeshakeParams { pid: params["pid"].as_u64().unwrap() as u32 })
        }
        Method::Update => Call::Update(UpdateParams { backend_name: name() }),
        Method::Outdated => Call::Outdated(OutdatedParams { backend_name: name() }),
        Method::Upgrade => Call::Upgrade(UpgradeParams { backend_name: name() }),
    }
}

fn reply_to_value(reply: &Reply) -> Value {
    match reply {
        Reply::Handshake(r) => object(vec![("privilige", Value::Bool(r.privilige))]),
        Reply::Update(_) => object(vec![]),
        Reply::Upgrade(_) => object(vec![]),
        Reply::Outdated(r) => {
            let items = r
                .pkgs
                .iter()
                .map(|i| {
                    object(vec![
                        ("name", Value::String(i.name.clone())),
                        ("vendor", Value::String(i.vendor.clone())),
                        ("current_version", Value::String(i.current_version.clone())),
                        ("target_version", Value::String(i.target_version.clone())),
                    ])
                })
                .collect();
            object(vec![("pkgs", Value::Array(items))])
        }
    }
}

fn reply_from_value(method: Method, value: &Value) -> Reply {
    let field = |item: &Value, key: &str| item[key].as_str().unwrap().to_string();
    match method {
        Method::Handshake => {
            Reply::Handshake(HandeshakeResult { privilige: value["privilige"].as_bool().unwrap() })
        }
        Method::Update => Reply::Update(UpdateResult {}),
        Method::Upgrade => Reply::Upgrade(UpgradeResult {}),
        Method::Outdated => Reply::Outdated(OutdatedResult {
            pkgs: value["pkgs"]
                .as_array()
                .unwrap()
                .iter()
                .map(|i| OutdateItem {
                    name: field(i, "name"),
                    vendor: field(i, "vendor"),
                    current_version: field(i, "current_version"),
                    target_version: field(i, "target_version"),
                })
                .collect(),
        }),
    }
}

fn pump(bytes: &[u8], wanted: &mut dyn FnMut() -> usize, feed: &mut dyn FnMut(&[u8]) -> Option<Vec<u8>>) -> Vec<u8> {
    let mut at = 0;
    loop {
        let n = wanted();
        let piece = &bytes[at..at + n];
        at += n;
        if let Some(payload) = feed(piece) {
            assert_eq!(at, bytes.len());
            return payload;
        }
    }
}

struct Wired {
    worker: FakeWorker,
    client: RefCell<Client>,
    frames: Cell<u32>,
}

impl Wired {
    fn new(worker: FakeWorker) -> Wired {
        Wired { worker, client: RefCell::new(Client::new()), frames: Cell::new(0) }
    }

    fn serve_one(&self, request_frame: &[u8]) -> Vec<u8> {
        let server = RefCell::new(Server::new());
        let payload = pump(
            request_frame,
            &mut || server.borrow().wanted(),
            &mut |piece| server.borrow_mut().receive(piece).unwrap(),
        );
        let envelope: Value = serde_json::from_slice(&payload).unwrap();
        let request = RpcRequest {
            method: envelope["method"].as_str().unwrap().to_string(),
            params: Some(envelope["params"].clone()),
        };
        let outcome = match request.target() {
            Err(e) => Err(e),
            Ok(method) => {
                let params = request.into_params().unwrap();
                let call = call_from_value(method, &params);
                server.borrow().serve(&self.worker, call).map(|reply| reply_to_value(&reply))
            }
        };
        let response = convert_result_to_response(outcome);
        let envelope = match &response.kind {
            RpcResponseKind::Success { result } => object(vec![("result", result.clone())]),
            RpcResponseKind::Failure { error } => object(vec![(
                "error",
                object(vec![
                    ("code", Value::from(error.code)),
                    ("message", Value::String(error.message.clone())),
                ]),
            )]),
        };
        let text = serde_json::to_string(&envelope).unwrap();
        let framed = server.borrow_mut().respond(text.as_bytes()).unwrap();
        framed
    }

    fn call(&self, call: Call) -> Result<Reply, UpmError> {
        let method = call.target();
        let request = RpcRequest::new(method, params_to_value(&call));
        let envelope = object(vec![
            ("method", Value::String(request.method.clone())),
            ("params", request.params.clone().unwrap()),
        ]);
        let text = serde_json::to_string(&envelope).unwrap();
        let request_frame = self.client.borrow_mut().call(text.as_bytes())?;
        self.frames.set(self.frames.get() + 1);
        let response_frame = self.serve_one(&request_frame);
        let payload = pump(
            &response_frame,
            &mut || self.client.borrow().wanted(),
            &mut |piece| self.client.borrow_mut().receive(piece).unwrap(),
        );
        let envelope: Value = serde_json::from_slice(&payload).unwrap();
        let response = match envelope.get("error") {
            Some(error) => RpcResponse {
                kind: RpcResponseKind::Failure {
                    error: RpcError {
                        code: error["code"].as_i64().unwrap() as i32,
                        message: error["message"].as_str().unwrap().to_string(),
                        data: None,
                    },
                },
            },
            None => RpcResponse {
                kind: RpcResponseKind::Success { result: envelope["result"].clone() },
            },
        };
        let value = response.into_result()?;
        Ok(reply_from_value(method, &value))
    }
}

impl Router for Wired {
    fn handshake(&self, params: HandeshakeParams) -> Result<HandeshakeResult, UpmError> {
        match self.call(Call::Handshake(params))? {
            Reply::Handshake(r) => Ok(r),
            _ => panic!("wrong reply"),
        }
    }

    fn update(&self, params: UpdateParams) -> Result<UpdateResult, UpmError> {
        match self.call(Call::Update(params))? {
            Reply::Update(r) => Ok(r),
            _ => panic!("wrong reply"),
        }
    }

    fn outdated(&self, params: OutdatedParams) -> Result<OutdatedResult, UpmError> {
        match self.call(Call::Outdated(params))? {
            Reply::Outdated(r) => Ok(r),
            _ => panic!("wrong reply"),
        }
    }

    fn upgrade(&self, params: UpgradeParams) -> Result<UpgradeResult, UpmError> {
        match self.call(Call::Upgrade(params))? {
            Reply::Upgrade(r) => Ok(r),
            _ => panic!("wrong reply"),
        }
    }
}

fn wired_session(
    privileged_first: bool,
) -> (Wired, Wired, WorkerRouter<FakeBackend>, Counters) {
    let worker_side = Counters::new();
    let make = |privileged: bool| {
        Wired::new(FakeWorker::new(
            privileged,
            one_backend("fake", FakeBackend::installed(true, false, false, &worker_side)),
        ))
    };
    let registry = one_backend("fake", FakeBackend::installed(true, false, false, &Counters::new()));
    (make(privileged_first), make(!privileged_first), registry, worker_side)
}

#[test]
fn end_to_end_update_all_calls_the_privileged_worker_once() {
    for privileged_first in [true, false] {
        let (first, second, mut registry, worker_side) = wired_session(privileged_first);
        let run =
            match run_as_controller(&args(Some(ActionMode::Update(all()))), first, second, &mut registry)
            {
                Ok(run) => run,
                Err(e) => panic!("{}", e.to_string()),
            };
        let reports = run.outcome.ok().unwrap();
        assert_eq!(reports.len(), 1);
        assert_eq!(reports[0].name, "fake");
        assert_eq!(reports[0].outcome, Ok(Some(Reply::Update(UpdateResult {}))));
        let ctl = run.controller;
        assert!(ctl.root_worker.worker.privileged);
        assert!(!ctl.normal_worker.worker.privileged);
        assert_eq!(ctl.root_worker.worker.calls(), vec!["update fake"]);
        assert!(ctl.normal_worker.worker.calls().is_empty());
        assert_eq!(ctl.root_worker.frames.get(), 2);
        assert_eq!(ctl.normal_worker.frames.get(), 1);
        assert_eq!(worker_side.updates.get(), 1);
    }
}

#[test]
fn end_to_end_outdated_all_calls_the_unprivileged_worker_once() {
    for privileged_first in [true, false] {
        let (first, second, mut registry, worker_side) = wired_session(privileged_first);
        let run = match run_as_controller(
            &args(Some(ActionMode::Outdated(all()))),
            first,
            second,
            &mut registry,
        ) {
            Ok(run) => run,
            Err(e) => panic!("{}", e.to_string()),
        };
        let reports = run.outcome.ok().unwrap();
        assert_eq!(reports.len(), 1);
        match &reports[0].outcome {
            Ok(Some(Reply::Outdated(result))) => {
                assert_eq!(list_package(result), vec!["vim: 9.0 -> 9.1"]);
                assert_eq!(result.pkgs[0].vendor, "stable");
            }
            other => panic!("unexpected outcome {:?}", other),
        }
        let ctl = run.controller;
        assert_eq!(ctl.normal_worker.worker.calls(), vec!["outdated fake"]);
        assert!(ctl.root_worker.worker.calls().is_empty());
        assert_eq!(worker_side.outdateds.get(), 1);
        assert_eq!(worker_side.updates.get(), 0);
    }
}

#[test]
fn end_to_end_default_mode_updates_all() {
    let (first, second, mut registry, worker_side) = wired_session(false);
    let run = run_as_controller(&args(None), first, second, &mut registry).ok().unwrap();
    assert_eq!(run.outcome.ok().unwrap().len(), 1);
    assert_eq!(run.controller.root_worker.worker.calls(), vec!["update fake"]);
    assert_eq!(worker_side.updates.get(), 1);
}

#[test]
fn end_to_end_worker_failure_comes_back_as_application_error() {
    let (first, second, mut registry, _) = wired_session(true);
    assert!(registry.register("absent", FakeBackend::idle()).is_ok());
    let run = run_as_controller(
        &args(Some(ActionMode::Upgrade(only("absent")))),
        first,
        second,
        &mut registry,
    )
    .ok()
    .unwrap();
    let reports = run.outcome.ok().unwrap();
    assert_eq!(
        reports[0].outcome,
        Err(UpmError {
            kind: ErrorKind::Application,
            message: "backend 'absent' not found.".to_string()
        })
    );
    assert_eq!(run.controller.normal_worker.worker.calls(), vec!["upgrade absent"]);
}

#[test]
fn end_to_end_unknown_method_is_answered_not_fatal() {
    let wired = Wired::new(FakeWorker::bare(false));
    let envelope = object(vec![("method", Value::String("reboot".to_string())), ("params", object(vec![]))]);
    let text = serde_json::to_string(&envelope).unwrap();
    let frame = wired.client.borrow_mut().call(text.as_bytes()).unwrap();
    let response = wired.serve_one(&frame);
    let payload = upm::rpc::wire::decode_frame(&response).unwrap();
    let answer: Value = serde_json::from_slice(&payload).unwrap();
    assert_eq!(answer["error"]["code"], Value::from(1));
    assert_eq!(answer["error"]["message"], Value::String("unknown method 'reboot'.".to_string()));
    assert!(wired.worker.calls().is_empty());
}

#[test]
fn bind_puts_the_root_slot_in_the_root_role() {
    let first = FakeWorker::bare(false);
    let second = FakeWorker::bare(false);
    first.log("mark", "first");
    let ctl = Controller::bind(first, second, Roles { root: Slot::First, normal: Slot::Second });
    assert_eq!(ctl.root_worker.calls(), vec!["mark first"]);
    assert!(ctl.normal_worker.calls().is_empty());

    let first = FakeWorker::bare(false);
    let second = FakeWorker::bare(false);
    first.log("mark", "first");
    let ctl = Controller::bind(first, second, Roles { root: Slot::Second, normal: Slot::First });
    assert_eq!(ctl.normal_worker.calls(), vec!["mark first"]);
    assert!(ctl.root_worker.calls().is_empty());
}

#[test]
fn backend_outcomes_become_answers_unchanged() {
    let failure = UpmError::new(ErrorKind::Backend, "E: lock held");
    assert_eq!(update_result(Ok(())), Ok(UpdateResult {}));
    assert_eq!(update_result(Err(failure.clone())), Err(failure.clone()));
    assert_eq!(upgrade_result(Ok(())), Ok(UpgradeResult {}));
    assert_eq!(upgrade_result(Err(failure.clone())), Err(failure.clone()));
    assert_eq!(reported(Ok(Reply::Update(UpdateResult {}))), Ok(Some(Reply::Update(UpdateResult {}))));
    assert_eq!(reported(Err(failure.clone())), Err(failure));
}

#[test]
fn unregistered_name_fails_even_when_others_are_cached() {
    let (ctl, mut registry, _, controller_side) = session(true, false, false);
    assert!(registry.info("fake").is_ok());
    assert_eq!(controller_side.probes.get(), 1);
    for name in ["nope", "Fake", "fake "] {
        let report = ctl.do_job_update_item(&mut registry, name);
        let expected = UpmError {
            kind: ErrorKind::Dispatch,
            message: format!("backend '{}' not found.", name),
        };
        assert_eq!(report.setup, Err(expected.clone()));
        assert_eq!(report.outcome, Err(expected));
        assert_eq!(registry.cached_info(name), None);
    }
    assert!(ctl.root_worker.calls().is_empty());
    assert!(ctl.normal_worker.calls().is_empty());
    assert_eq!(controller_side.probes.get(), 1);
}

#[test]
fn worker_of_the_other_role_is_never_called() {
    for bits in 0..8u8 {
        let (update, outdated, upgrade) = (bits & 1 != 0, bits & 2 != 0, bits & 4 != 0);
        let (ctl, mut registry, _, _) = session(update, outdated, upgrade);
        ctl.do_job_update_item(&mut registry, "fake");
        ctl.do_job_outdated_item(&mut registry, "fake");
        ctl.do_job_upgrade_item(&mut registry, "fake");
        let mut root = Vec::new();
        let mut normal = Vec::new();
        for (flag, call) in [(update, "update fake"), (outdated, "outdated fake"), (upgrade, "upgrade fake")] {
            if flag {
                root.push(call.to_string());
            } else {
                normal.push(call.to_string());
            }
        }
        assert_eq!(ctl.root_worker.calls(), root);
        assert_eq!(ctl.normal_worker.calls(), normal);
    }
}
