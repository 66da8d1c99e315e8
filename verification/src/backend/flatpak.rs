//! The sandboxed-app manager.

use vstd::prelude::*;
use crate::backend::{
    capture_lines, captured_rows, command, finished, group, group_at, output_of, probe_once,
    probed, rows_text, run_once, CommandEvent, CommandLine, Step,
};
use crate::error::{ErrorKind, UpmError};
use crate::privilege::{BackendSetup, MethodPrivilege};
use crate::rpc::{OutdateItem, OutdateItemView, OutdatedResult};
use crate::text::{groups_text, lines_of, str_eq};

verus! {

#[derive(Debug)]
pub struct FlatpakBackend {}

/// One line of the tool's listings: an application, its version and the
/// remote it comes from.
#[derive(Debug, Clone, PartialEq, Eq)]
pub struct FlatpakItem {
    pub name: String,
    pub vendor: String,
    pub version: String,
}

/// The text of a listing's line.
pub struct FlatpakItemView {
    pub name: Seq<char>,
    pub vendor: Seq<char>,
    pub version: Seq<char>,
}

impl View for FlatpakItem {
    type V = FlatpakItemView;

    open spec fn view(&self) -> FlatpakItemView {
        FlatpakItemView { name: self.name@, vendor: self.vendor@, version: self.version@ }
    }
}

/// What the tool needs: refreshing the index needs root.
pub open spec fn flatpak_privilege() -> MethodPrivilege {
    MethodPrivilege { update: true, outdated: false, upgrade: false }
}

/// A line of a listing: three columns with space between them.
pub open spec fn listing_pattern() -> Seq<char> {
    r"^(\S+)\s+(\S+)\s+(\S+)$"@
}

/// The listing's line that a match stands for: application, version and
/// origin, in that order.
pub open spec fn listed_item(groups: Seq<Option<Seq<char>>>) -> Option<FlatpakItemView> {
    match (group_at(groups, 1), group_at(groups, 2), group_at(groups, 3)) {
        (Some(name), Some(version), Some(vendor)) => Some(
            FlatpakItemView { name, vendor, version },
        ),
        _ => None,
    }
}

/// The lines of a listing, for the rows of its matches.
pub open spec fn listed_items(rows: Seq<Seq<Option<Seq<char>>>>) -> Seq<FlatpakItemView>
    decreases rows.len(),
{
    if rows.len() == 0 {
        Seq::empty()
    } else {
        match listed_item(rows.last()) {
            Some(item) => listed_items(rows.drop_last()).push(item),
            None => listed_items(rows.drop_last()),
        }
    }
}

/// The first of `installs` that has the given name.
pub open spec fn first_named(installs: Seq<FlatpakItemView>, name: Seq<char>) -> Option<
    FlatpakItemView,
>
    decreases installs.len(),
{
    if installs.len() == 0 {
        None
    } else if installs[0].name == name {
        Some(installs[0])
    } else {
        first_named(installs.drop_first(), name)
    }
}

/// The outdated packages: every update whose application is installed, in
/// the order of the updates, with the installed version as the current one
/// and the update's version as the target.
pub open spec fn outdated_items(
    updates: Seq<FlatpakItemView>,
    installs: Seq<FlatpakItemView>,
) -> Seq<OutdateItemView>
    decreases updates.len(),
{
    if updates.len() == 0 {
        Seq::empty()
    } else {
        let update = updates.last();
        match first_named(installs, update.name) {
            Some(install) => outdated_items(updates.drop_last(), installs).push(
                OutdateItemView {
                    name: update.name,
                    vendor: update.vendor,
                    current_version: install.version,
                    target_version: update.version,
                },
            ),
            None => outdated_items(updates.drop_last(), installs),
        }
    }
}

/// What a listing's text holds: its lines' items, or the message of the
/// pattern's error.
pub open spec fn listing_of(text: Seq<char>) -> Result<Seq<FlatpakItemView>, Seq<char>> {
    match captured_rows(listing_pattern(), lines_of(text)) {
        Ok(rows) => Ok(listed_items(rows)),
        Err(message) => Err(message),
    }
}

/// The text of items.
pub open spec fn items_text(items: Vec<FlatpakItem>) -> Seq<FlatpakItemView> {
    items@.map_values(|item: FlatpakItem| item@)
}

/// An item that is not among the first `n` is the first of all of them
/// exactly if it is the first of the rest.
proof fn lemma_first_named_skips(installs: Seq<FlatpakItemView>, name: Seq<char>, n: int)
    requires
        0 <= n <= installs.len(),
        forall|j: int| 0 <= j < n ==> (#[trigger] installs[j]).name != name,
    ensures
        first_named(installs, name) == first_named(installs.skip(n), name),
    decreases n,
{
    if n == 0 {
        assert(installs.skip(0) =~= installs);
    } else {
        lemma_first_named_skips(installs, name, n - 1);
        let rest = installs.skip(n - 1);
        assert(rest[0] == installs[n - 1]);
        assert(rest.drop_first() =~= installs.skip(n));
    }
}

/// Reads the items off a listing's text.
pub fn parse_listing(text: &str) -> (r: Result<Vec<FlatpakItem>, UpmError>)
    ensures
        match listing_of(text@) {
            Ok(items) => r matches Ok(found) && items_text(found) == items,
            Err(message) => r matches Err(e) && e.says(ErrorKind::Backend, message),
        },
{
    let rows = match capture_lines(r"^(\S+)\s+(\S+)\s+(\S+)$", text) {
        Ok(rows) => rows,
        Err(e) => {
            return Err(e);
        },
    };
    let ghost all = rows_text(rows);
    let mut items: Vec<FlatpakItem> = Vec::new();
    let mut i: usize = 0;
    assert(all.take(0) =~= Seq::empty());
    assert(items_text(items) =~= Seq::empty());
    while i < rows.len()
        invariant
            i <= rows@.len(),
            all == rows_text(rows),
            items_text(items) == listed_items(all.take(i as int)),
        decreases rows@.len() - i,
    {
        let ghost before = items_text(items);
        proof {
            assert(all.take(i as int + 1).drop_last() =~= all.take(i as int));
            assert(all.take(i as int + 1).last() == groups_text(rows@[i as int]));
        }
        let row = &rows[i];
        match (group(row, 1), group(row, 2), group(row, 3)) {
            (Some(name), Some(version), Some(vendor)) => {
                let item = FlatpakItem {
                    name: name.clone(),
                    vendor: vendor.clone(),
                    version: version.clone(),
                };
                items.push(item);
                assert(items_text(items) =~= before.push(item@));
            },
            _ => {},
        }
        i = i + 1;
    }
    assert(all.take(i as int) =~= all);
    Ok(items)
}

/// The first of `installs` that has the given name.
pub fn find_install<'a>(installs: &'a Vec<FlatpakItem>, name: &str) -> (r: Option<&'a FlatpakItem>)
    ensures
        match first_named(items_text(*installs), name@) {
            Some(install) => r matches Some(found) && found@ == install,
            None => r is None,
        },
{
    let ghost all = items_text(*installs);
    let mut i: usize = 0;
    while i < installs.len()
        invariant
            i <= installs@.len(),
            all == items_text(*installs),
            forall|j: int| 0 <= j < i ==> (#[trigger] all[j]).name != name@,
        decreases installs@.len() - i,
    {
        if str_eq(installs[i].name.as_str(), name) {
            proof {
                lemma_first_named_skips(all, name@, i as int);
                assert(all.skip(i as int)[0] == all[i as int]);
            }
            return Some(&installs[i]);
        }
        i = i + 1;
    }
    proof {
        lemma_first_named_skips(all, name@, i as int);
        assert(all.skip(i as int).len() == 0);
    }
    None
}

/// Joins the updates on offer with what is installed.
pub fn join_outdated(updates: &Vec<FlatpakItem>, installs: &Vec<FlatpakItem>) -> (r: OutdatedResult)
    ensures
        r@ == outdated_items(items_text(*updates), items_text(*installs)),
{
    let ghost all = items_text(*updates);
    let mut ret = OutdatedResult { pkgs: Vec::new() };
    let mut i: usize = 0;
    assert(all.take(0) =~= Seq::empty());
    assert(ret@ =~= Seq::empty());
    while i < updates.len()
        invariant
            i <= updates@.len(),
            all == items_text(*updates),
            ret@ == outdated_items(all.take(i as int), items_text(*installs)),
        decreases updates@.len() - i,
    {
        let ghost before = ret@;
        proof {
            assert(all.take(i as int + 1).drop_last() =~= all.take(i as int));
            assert(all.take(i as int + 1).last() == updates@[i as int]@);
        }
        let item = &updates[i];
        match find_install(installs, item.name.as_str()) {
            Some(install) => {
                let outdate_item = OutdateItem {
                    name: item.name.clone(),
                    vendor: item.vendor.clone(),
                    current_version: install.version.clone(),
                    target_version: item.version.clone(),
                };
                ret.pkgs.push(outdate_item);
                assert(ret@ =~= before.push(outdate_item@));
            },
            None => {},
        }
        i = i + 1;
    }
    assert(all.take(i as int) =~= all);
    ret
}

/// What the two listings make of outdated packages: the join of the
/// updates with the installs, or the first failure on the way: of the first
/// command, of the second, of reading the first listing, of reading the
/// second.
pub open spec fn outdated_of(updates: CommandEvent, installs: CommandEvent) -> Result<
    Seq<OutdateItemView>,
    Seq<char>,
> {
    if updates.failure_text() is Some {
        Err(updates.failure_text()->0)
    } else if installs.failure_text() is Some {
        Err(installs.failure_text()->0)
    } else {
        match listing_of(updates.output_text()) {
            Err(message) => Err(message),
            Ok(offered) => match listing_of(installs.output_text()) {
                Err(message) => Err(message),
                Ok(installed) => Ok(outdated_items(offered, installed)),
            },
        }
    }
}

impl FlatpakBackend {
    pub fn new() -> FlatpakBackend {
        FlatpakBackend {  }
    }

    pub fn privilege(&self) -> (p: MethodPrivilege)
        ensures
            p == flatpak_privilege(),
    {
        MethodPrivilege { update: true, outdated: false, upgrade: false }
    }

    /// Probes for the tool with `flatpak --version`. A host without the
    /// tool has the backend not installed.
    pub fn setup(&self, seen: &Vec<CommandEvent>) -> (r: Step<BackendSetup>)
        ensures
            seen@.len() == 0 ==> (r matches Step::Run(c) && c@ == command(
                "flatpak"@,
                seq!["--version"@],
            )),
            seen@.len() > 0 ==> r == Step::Done(
                Ok::<BackendSetup, UpmError>(probed(seen@[0], flatpak_privilege())),
            ),
    {
        let c = CommandLine::new("flatpak").arg("--version");
        assert(c@.args =~= seq!["--version"@]);
        probe_once(c, self.privilege(), seen)
    }

    /// Refreshes the index with `flatpak update --appstream`.
    pub fn update(&self, seen: &Vec<CommandEvent>) -> (r: Step<()>)
        ensures
            seen@.len() == 0 ==> (r matches Step::Run(c) && c@ == command(
                "flatpak"@,
                seq!["update"@, "--appstream"@],
            )),
            seen@.len() > 0 ==> (r matches Step::Done(result) && finished(seen@[0], result)),
    {
        let c = CommandLine::new("flatpak").arg("update").arg("--appstream");
        assert(c@.args =~= seq!["update"@, "--appstream"@]);
        run_once(c, seen)
    }

    /// Lists the updates on offer, then what is installed, and joins the
    /// two.
    pub fn outdated(&self, seen: &Vec<CommandEvent>) -> (r: Step<OutdatedResult>)
        ensures
            seen@.len() == 0 ==> (r matches Step::Run(c) && c@ == flatpak_remote_ls_updates()),
            seen@.len() == 1 ==> match seen@[0].failure_text() {
                Some(text) => r matches Step::Done(Err(e)) && e.says(ErrorKind::Backend, text),
                None => r matches Step::Run(c) && c@ == flatpak_ls(),
            },
            seen@.len() >= 2 ==> (r matches Step::Done(result) && match outdated_of(
                seen@[0],
                seen@[1],
            ) {
                Ok(items) => result matches Ok(found) && found@ == items,
                Err(text) => result matches Err(e) && e.says(ErrorKind::Backend, text),
            }),
    {
        if seen.len() == 0 {
            let c = CommandLine::new("flatpak").arg("remote-ls").arg("--updates").arg(
                "--columns=application,version,origin",
            );
            assert(c@.args =~= flatpak_remote_ls_updates().args);
            return Step::Run(c);
        }
        let offered = match output_of(&seen[0]) {
            Ok(text) => text,
            Err(e) => {
                return Step::Done(Err(e));
            },
        };
        if seen.len() == 1 {
            let c = CommandLine::new("flatpak").arg("list").arg(
                "--columns=application,version,origin",
            );
            assert(c@.args =~= flatpak_ls().args);
            return Step::Run(c);
        }
        let installed = match output_of(&seen[1]) {
            Ok(text) => text,
            Err(e) => {
                return Step::Done(Err(e));
            },
        };
        let updates = match parse_listing(offered.as_str()) {
            Ok(items) => items,
            Err(e) => {
                return Step::Done(Err(e));
            },
        };
        let installs = match parse_listing(installed.as_str()) {
            Ok(items) => items,
            Err(e) => {
                return Step::Done(Err(e));
            },
        };
        Step::Done(Ok(join_outdated(&updates, &installs)))
    }

    /// Upgrades with `flatpak update --noninteractive`.
    pub fn upgrade(&self, seen: &Vec<CommandEvent>) -> (r: Step<()>)
        ensures
            seen@.len() == 0 ==> (r matches Step::Run(c) && c@ == command(
                "flatpak"@,
                seq!["update"@, "--noninteractive"@],
            )),
            seen@.len() > 0 ==> (r matches Step::Done(result) && finished(seen@[0], result)),
    {
        let c = CommandLine::new("flatpak").arg("update").arg("--noninteractive");
        assert(c@.args =~= seq!["update"@, "--noninteractive"@]);
        run_once(c, seen)
    }
}

/// List updates from remote.
pub open spec fn flatpak_remote_ls_updates() -> crate::backend::CommandLineView {
    command(
        "flatpak"@,
        seq!["remote-ls"@, "--updates"@, "--columns=application,version,origin"@],
    )
}

/// List installed flatpak packages.
pub open spec fn flatpak_ls() -> crate::backend::CommandLineView {
    command("flatpak"@, seq!["list"@, "--columns=application,version,origin"@])
}

} // verus!
