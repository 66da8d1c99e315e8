//! The system package index.

use vstd::prelude::*;
use crate::backend::{
    capture_lines, captured_rows, command, finished, group, group_at, output_of, probe_verdict,
    probed, rows_text, run_once, CommandEvent, CommandLine, CommandLineView, Step,
};
use crate::error::{ErrorKind, UpmError};
use crate::privilege::{BackendSetup, MethodPrivilege};
use crate::rpc::{OutdateItem, OutdateItemView, OutdatedResult};
use crate::text::{groups_text, lines_of};

verus! {

#[derive(Debug)]
pub struct AptBackend {}

/// What the tool needs: refreshing the index and upgrading need root,
/// listing does not.
pub open spec fn apt_privilege() -> MethodPrivilege {
    MethodPrivilege { update: true, outdated: false, upgrade: true }
}

/// A line of the list of upgradable packages: the package and its vendor
/// with a slash between them, the version on offer, the architecture, and
/// in square brackets the version that is installed.
pub open spec fn upgradable_pattern() -> Seq<char> {
    r"(\S+)/(\S+)\s+(\S+)\s+(\S+)\s+\[upgradable from: (\S+)\]"@
}

/// The command that lists the upgradable packages, in English.
pub open spec fn list_upgradable() -> CommandLineView {
    CommandLineView {
        program: "apt"@,
        args: seq!["list"@, "--upgradable"@],
        envs: seq![("LANG"@, "en_US.UTF-8"@), ("LANGUAGE"@, "en_US"@)],
    }
}

/// The outdated package that a match stands for: the package and its
/// vendor, the version it would go to, and the version it is at.
pub open spec fn upgradable_item(groups: Seq<Option<Seq<char>>>) -> Option<OutdateItemView> {
    match (group_at(groups, 1), group_at(groups, 2), group_at(groups, 5), group_at(groups, 3)) {
        (Some(name), Some(vendor), Some(current_version), Some(target_version)) => Some(
            OutdateItemView { name, vendor, current_version, target_version },
        ),
        _ => None,
    }
}

/// The outdated packages, for the rows of the list's matches.
pub open spec fn upgradable_items(rows: Seq<Seq<Option<Seq<char>>>>) -> Seq<OutdateItemView>
    decreases rows.len(),
{
    if rows.len() == 0 {
        Seq::empty()
    } else {
        match upgradable_item(rows.last()) {
            Some(item) => upgradable_items(rows.drop_last()).push(item),
            None => upgradable_items(rows.drop_last()),
        }
    }
}

/// What the list's text holds: its lines' packages, or the message of the
/// pattern's error.
pub open spec fn upgradable_of(text: Seq<char>) -> Result<Seq<OutdateItemView>, Seq<char>> {
    match captured_rows(upgradable_pattern(), lines_of(text)) {
        Ok(rows) => Ok(upgradable_items(rows)),
        Err(message) => Err(message),
    }
}

/// Reads the outdated packages off the list of upgradable packages.
pub fn parse_upgradable(text: &str) -> (r: Result<OutdatedResult, UpmError>)
    ensures
        match upgradable_of(text@) {
            Ok(items) => r matches Ok(found) && found@ == items,
            Err(message) => r matches Err(e) && e.says(ErrorKind::Backend, message),
        },
{
    let rows = match capture_lines(
        r"(\S+)/(\S+)\s+(\S+)\s+(\S+)\s+\[upgradable from: (\S+)\]",
        text,
    ) {
        Ok(rows) => rows,
        Err(e) => {
            return Err(e);
        },
    };
    let ghost all = rows_text(rows);
    let mut ret = OutdatedResult { pkgs: Vec::new() };
    let mut i: usize = 0;
    assert(all.take(0) =~= Seq::empty());
    assert(ret@ =~= Seq::empty());
    while i < rows.len()
        invariant
            i <= rows@.len(),
            all == rows_text(rows),
            ret@ == upgradable_items(all.take(i as int)),
        decreases rows@.len() - i,
    {
        let ghost before = ret@;
        proof {
            assert(all.take(i as int + 1).drop_last() =~= all.take(i as int));
            assert(all.take(i as int + 1).last() == groups_text(rows@[i as int]));
        }
        let caps = &rows[i];
        match (group(caps, 1), group(caps, 2), group(caps, 5), group(caps, 3)) {
            (Some(package_name), Some(vendor), Some(current_version), Some(target_version)) => {
                let item = OutdateItem {
                    name: package_name.clone(),
                    vendor: vendor.clone(),
                    current_version: current_version.clone(),
                    target_version: target_version.clone(),
                };
                ret.pkgs.push(item);
                assert(ret@ =~= before.push(item@));
            },
            _ => {},
        }
        i = i + 1;
    }
    assert(all.take(i as int) =~= all);
    Ok(ret)
}

impl AptBackend {
    pub fn new() -> AptBackend {
        AptBackend {  }
    }

    pub fn privilege(&self) -> (p: MethodPrivilege)
        ensures
            p == apt_privilege(),
    {
        MethodPrivilege { update: true, outdated: false, upgrade: true }
    }

    /// Probes for the tools: `apt-get --version` first, then
    /// `apt --version`. The backend is installed if both succeed. If either
    /// cannot be run or fails, the tool is absent and the backend is not
    /// installed; after a first command that did not succeed the second is
    /// not run.
    pub fn setup(&self, seen: &Vec<CommandEvent>) -> (r: Step<BackendSetup>)
        ensures
            seen@.len() == 0 ==> (r matches Step::Run(c) && c@ == command(
                "apt-get"@,
                seq!["--version"@],
            )),
            seen@.len() > 0 && seen@[0].failure_text() is Some ==> r == Step::Done(
                Ok::<BackendSetup, UpmError>(BackendSetup::NotInstalled),
            ),
            seen@.len() == 1 && seen@[0].failure_text() is None ==> (r matches Step::Run(c) && c@
                == command("apt"@, seq!["--version"@])),
            seen@.len() > 1 && seen@[0].failure_text() is None ==> r == Step::Done(
                Ok::<BackendSetup, UpmError>(probed(seen@[1], apt_privilege())),
            ),
    {
        if seen.len() == 0 {
            let c = CommandLine::new("apt-get").arg("--version");
            assert(c@.args =~= seq!["--version"@]);
            return Step::Run(c);
        }
        match probe_verdict(&seen[0], self.privilege()) {
            BackendSetup::NotInstalled => {
                return Step::Done(Ok(BackendSetup::NotInstalled));
            },
            BackendSetup::Installed(_) => {},
        }
        if seen.len() == 1 {
            let c = CommandLine::new("apt").arg("--version");
            assert(c@.args =~= seq!["--version"@]);
            return Step::Run(c);
        }
        Step::Done(Ok(probe_verdict(&seen[1], self.privilege())))
    }

    /// Refreshes the index with `apt-get update`.
    pub fn update(&self, seen: &Vec<CommandEvent>) -> (r: Step<()>)
        ensures
            seen@.len() == 0 ==> (r matches Step::Run(c) && c@ == command(
                "apt-get"@,
                seq!["update"@],
            )),
            seen@.len() > 0 ==> (r matches Step::Done(result) && finished(seen@[0], result)),
    {
        let c = CommandLine::new("apt-get").arg("update");
        assert(c@.args =~= seq!["update"@]);
        run_once(c, seen)
    }

    /// Lists the upgradable packages with `apt list --upgradable`, in
    /// English, and reads the outdated packages off the list.
    pub fn outdated(&self, seen: &Vec<CommandEvent>) -> (r: Step<OutdatedResult>)
        ensures
            seen@.len() == 0 ==> (r matches Step::Run(c) && c@ == list_upgradable()),
            seen@.len() > 0 ==> (r matches Step::Done(result) && match seen@[0].failure_text() {
                Some(text) => result matches Err(e) && e.says(ErrorKind::Backend, text),
                None => match upgradable_of(seen@[0].output_text()) {
                    Ok(items) => result matches Ok(found) && found@ == items,
                    Err(message) => result matches Err(e) && e.says(ErrorKind::Backend, message),
                },
            }),
    {
        if seen.len() == 0 {
            let c = CommandLine::new("apt").env("LANG", "en_US.UTF-8").env(
                "LANGUAGE",
                "en_US",
            ).arg("list").arg("--upgradable");
            assert(c@.args =~= list_upgradable().args);
            assert(c@.envs =~= list_upgradable().envs);
            return Step::Run(c);
        }
        match output_of(&seen[0]) {
            Ok(output) => Step::Done(parse_upgradable(output.as_str())),
            Err(e) => Step::Done(Err(e)),
        }
    }

    /// Upgrades with `apt-get upgrade -y`.
    pub fn upgrade(&self, seen: &Vec<CommandEvent>) -> (r: Step<()>)
        ensures
            seen@.len() == 0 ==> (r matches Step::Run(c) && c@ == command(
                "apt-get"@,
                seq!["upgrade"@, "-y"@],
            )),
            seen@.len() > 0 ==> (r matches Step::Done(result) && finished(seen@[0], result)),
    {
        let c = CommandLine::new("apt-get").arg("upgrade").arg("-y");
        assert(c@.args =~= seq!["upgrade"@, "-y"@]);
        run_once(c, seen)
    }
}

} // verus!
