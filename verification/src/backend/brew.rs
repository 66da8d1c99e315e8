//! The formula manager.

use vstd::prelude::*;
use vstd::string::StringExecFns;
use crate::backend::{command, probe_once, run_once, CommandEvent, CommandLine, Step};
use crate::backend::{finished, output_of, probed};
use crate::error::{ErrorKind, UpmError};
use crate::json::{json_parsed, parse, Json};
use crate::privilege::{BackendSetup, MethodPrivilege};
use crate::rpc::{OutdateItem, OutdateItemView, OutdatedResult};

verus! {

#[derive(Debug)]
pub struct BrewBackend {}

/// What the tool needs: no operation needs root.
pub open spec fn brew_privilege() -> MethodPrivilege {
    MethodPrivilege { update: false, outdated: false, upgrade: false }
}

/// The text under `key` of an entry of the report.
pub open spec fn text_at(entry: Json, key: Seq<char>) -> Option<Seq<char>> {
    match entry.field(key) {
        Some(value) => value.text(),
        None => None,
    }
}

/// The first of an entry's installed versions.
pub open spec fn first_installed(entry: Json) -> Option<Seq<char>> {
    match entry.field("installed_versions"@) {
        Some(versions) => match versions.items() {
            Some(list) => if list.len() > 0 {
                list[0].text()
            } else {
                None
            },
            None => None,
        },
        None => None,
    }
}

/// The outdated package that an entry of the report stands for: the
/// formula's name; installed is the first of its installed versions; the
/// target is what the tool calls its current version. None for an entry
/// that lacks one of them.
pub open spec fn formula_item(entry: Json) -> Option<OutdateItemView> {
    match (text_at(entry, "name"@), first_installed(entry), text_at(entry, "current_version"@)) {
        (Some(name), Some(current_version), Some(target_version)) => Some(
            OutdateItemView { name, vendor: "formulae"@, current_version, target_version },
        ),
        _ => None,
    }
}

/// The outdated packages that the entries stand for, in their order; none
/// if an entry stands for none.
pub open spec fn formulae_items(entries: Seq<Json>) -> Option<Seq<OutdateItemView>>
    decreases entries.len(),
{
    if entries.len() == 0 {
        Some(Seq::empty())
    } else {
        match (formulae_items(entries.drop_last()), formula_item(entries.last())) {
            (Some(items), Some(item)) => Some(items.push(item)),
            _ => None,
        }
    }
}

/// The outdated packages that a report holds: those of the entries under
/// `formulae`; none if the report has no such list or an entry is not as
/// expected.
pub open spec fn report_items(report: Json) -> Option<Seq<OutdateItemView>> {
    match report.field("formulae"@) {
        Some(formulae) => match formulae.items() {
            Some(entries) => formulae_items(entries),
            None => None,
        },
        None => None,
    }
}

/// The message for a report that is not as expected.
pub open spec fn unexpected_report_text() -> Seq<char> {
    "unexpected report of outdated formulae."@
}

/// What the text of a report holds: its outdated packages, or the message
/// of what is wrong with it: the parser's, where the text is not JSON.
pub open spec fn outdated_of(text: Seq<char>) -> Result<Seq<OutdateItemView>, Seq<char>> {
    match json_parsed(text) {
        Err(message) => Err(message),
        Ok(report) => match report_items(report) {
            Some(items) => Ok(items),
            None => Err(unexpected_report_text()),
        },
    }
}

/// Once the first entries stand for no list of packages, all entries stand
/// for none.
proof fn lemma_items_fail_later(entries: Seq<Json>, n: int)
    requires
        0 <= n <= entries.len(),
        formulae_items(entries.take(n)) is None,
    ensures
        formulae_items(entries) is None,
    decreases entries.len() - n,
{
    if n == entries.len() {
        assert(entries.take(n) =~= entries);
    } else {
        assert(entries.take(n + 1).drop_last() =~= entries.take(n));
        lemma_items_fail_later(entries, n + 1);
    }
}

/// The outdated package that an entry of the report stands for.
pub fn read_formula(entry: &Json) -> (r: Option<OutdateItem>)
    ensures
        match formula_item(*entry) {
            Some(item) => r matches Some(found) && found@ == item,
            None => r is None,
        },
{
    let name = match entry.get("name") {
        Some(value) => value.as_text(),
        None => None,
    };
    let installed = match entry.get("installed_versions") {
        Some(versions) => match versions.as_list() {
            Some(list) => if list.len() > 0 {
                list[0].as_text()
            } else {
                None
            },
            None => None,
        },
        None => None,
    };
    let current = match entry.get("current_version") {
        Some(value) => value.as_text(),
        None => None,
    };
    match (name, installed, current) {
        (Some(name), Some(current_version), Some(target_version)) => Some(
            OutdateItem {
                name: name.clone(),
                vendor: String::from_str("formulae"),
                current_version: current_version.clone(),
                target_version: target_version.clone(),
            },
        ),
        _ => None,
    }
}

/// The outdated packages that a report holds.
pub fn read_report(report: &Json) -> (r: Result<OutdatedResult, UpmError>)
    ensures
        match report_items(*report) {
            Some(items) => r matches Ok(found) && found@ == items,
            None => r matches Err(e) && e.says(ErrorKind::Backend, unexpected_report_text()),
        },
{
    let entries = match report.get("formulae") {
        Some(formulae) => match formulae.as_list() {
            Some(entries) => entries,
            None => {
                return Err(
                    UpmError::new(ErrorKind::Backend, "unexpected report of outdated formulae."),
                );
            },
        },
        None => {
            return Err(
                UpmError::new(ErrorKind::Backend, "unexpected report of outdated formulae."),
            );
        },
    };
    let ghost all = entries@;
    let mut ret = OutdatedResult { pkgs: Vec::new() };
    let mut i: usize = 0;
    assert(all.take(0) =~= Seq::empty());
    assert(ret@ =~= Seq::empty());
    while i < entries.len()
        invariant
            i <= entries@.len(),
            all == entries@,
            report_items(*report) == formulae_items(all),
            formulae_items(all.take(i as int)) == Some(ret@),
        decreases entries@.len() - i,
    {
        let ghost before = ret@;
        proof {
            assert(all.take(i as int + 1).drop_last() =~= all.take(i as int));
            assert(all.take(i as int + 1).last() == entries@[i as int]);
        }
        match read_formula(&entries[i]) {
            Some(item) => {
                ret.pkgs.push(item);
                assert(ret@ =~= before.push(item@));
            },
            None => {
                proof {
                    lemma_items_fail_later(all, i as int + 1);
                }
                return Err(
                    UpmError::new(ErrorKind::Backend, "unexpected report of outdated formulae."),
                );
            },
        }
        i = i + 1;
    }
    assert(all.take(i as int) =~= all);
    Ok(ret)
}

/// Reads the outdated packages off the text of a report.
pub fn parse_report(text: &str) -> (r: Result<OutdatedResult, UpmError>)
    ensures
        match outdated_of(text@) {
            Ok(items) => r matches Ok(found) && found@ == items,
            Err(message) => r matches Err(e) && e.says(ErrorKind::Backend, message),
        },
{
    match parse(text) {
        Ok(report) => read_report(&report),
        Err(message) => Err(UpmError { kind: ErrorKind::Backend, message }),
    }
}

impl BrewBackend {
    pub fn new() -> BrewBackend {
        BrewBackend {  }
    }

    pub fn privilege(&self) -> (p: MethodPrivilege)
        ensures
            p == brew_privilege(),
    {
        MethodPrivilege { update: false, outdated: false, upgrade: false }
    }

    /// Probes for the tool with `brew --version`. A host without the tool
    /// has the backend not installed.
    pub fn setup(&self, seen: &Vec<CommandEvent>) -> (r: Step<BackendSetup>)
        ensures
            seen@.len() == 0 ==> (r matches Step::Run(c) && c@ == command(
                "brew"@,
                seq!["--version"@],
            )),
            seen@.len() > 0 ==> r == Step::Done(
                Ok::<BackendSetup, UpmError>(probed(seen@[0], brew_privilege())),
            ),
    {
        let c = CommandLine::new("brew").arg("--version");
        assert(c@.args =~= seq!["--version"@]);
        probe_once(c, self.privilege(), seen)
    }

    /// Updates the index with `brew update`.
    pub fn update(&self, seen: &Vec<CommandEvent>) -> (r: Step<()>)
        ensures
            seen@.len() == 0 ==> (r matches Step::Run(c) && c@ == command(
                "brew"@,
                seq!["update"@],
            )),
            seen@.len() > 0 ==> (r matches Step::Done(result) && finished(seen@[0], result)),
    {
        let c = CommandLine::new("brew").arg("update");
        assert(c@.args =~= seq!["update"@]);
        run_once(c, seen)
    }

    /// Asks for the outdated formulae with `brew outdated --json=v2`, with
    /// the tool's hints switched off, and reads the outdated packages off
    /// the report.
    pub fn outdated(&self, seen: &Vec<CommandEvent>) -> (r: Step<OutdatedResult>)
        ensures
            seen@.len() == 0 ==> (r matches Step::Run(c) && c@.program == "brew"@ && c@.args
                == seq!["outdated"@, "--json=v2"@] && c@.envs == seq![
                ("HOMEBREW_NO_ENV_HINTS"@, "1"@),
            ]),
            seen@.len() > 0 ==> (r matches Step::Done(result) && match seen@[0].failure_text() {
                Some(text) => result matches Err(e) && e.says(ErrorKind::Backend, text),
                None => match outdated_of(seen@[0].output_text()) {
                    Ok(items) => result matches Ok(found) && found@ == items,
                    Err(message) => result matches Err(e) && e.says(ErrorKind::Backend, message),
                },
            }),
    {
        if seen.len() == 0 {
            let c = CommandLine::new("brew").env("HOMEBREW_NO_ENV_HINTS", "1").arg("outdated").arg(
                "--json=v2",
            );
            assert(c@.args =~= seq!["outdated"@, "--json=v2"@]);
            assert(c@.envs =~= seq![("HOMEBREW_NO_ENV_HINTS"@, "1"@)]);
            return Step::Run(c);
        }
        match output_of(&seen[0]) {
            Ok(report) => Step::Done(parse_report(report.as_str())),
            Err(e) => Step::Done(Err(e)),
        }
    }

    /// Upgrades with `brew upgrade`.
    pub fn upgrade(&self, seen: &Vec<CommandEvent>) -> (r: Step<()>)
        ensures
            seen@.len() == 0 ==> (r matches Step::Run(c) && c@ == command(
                "brew"@,
                seq!["upgrade"@],
            )),
            seen@.len() > 0 ==> (r matches Step::Done(result) && finished(seen@[0], result)),
    {
        let c = CommandLine::new("brew").arg("upgrade");
        assert(c@.args =~= seq!["upgrade"@]);
        run_once(c, seen)
    }
}

} // verus!
