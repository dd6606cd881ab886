//! The decisions of one run: whether a requested entry is switched to and
//! restarted unattended, or the operator chooses an entry and then whether to
//! restart. The caller performs each action and reports back what came of it.

use vstd::prelude::*;
use vstd::string::StringExecFns;

use crate::catalog::BootCatalog;
use crate::matcher::{first_index_of, match_target, matched_entry};
use crate::store::views;

verus! {

/// Label of the restart option in the restart prompt (position 0).
pub const REBOOT_LABEL: &'static str = "Reboot";

/// Label of the option that ends the run without a restart (position 1).
pub const NO_REBOOT_LABEL: &'static str = "No Reboot";

/// Where a run stands: what it waits to hear about.
#[derive(Clone, Copy, Debug, PartialEq, Eq, Structural)]
pub enum Phase {
    /// The requested entry is being made the default; a restart follows.
    CommittingTarget,
    /// The operator is choosing an entry.
    ChoosingEntry,
    /// The chosen entry is being made the default; the restart prompt follows.
    CommittingChoice,
    /// The operator is asked whether to restart.
    ConfirmingReboot,
    /// A restart was requested.
    Rebooting,
    /// Nothing more happens.
    Done,
}

/// What came of the last action.
#[derive(Clone, Copy, Debug)]
pub enum Event {
    /// The entry chooser closed: the chosen position, or none if cancelled.
    EntryChosen(Option<usize>),
    /// The restart prompt closed: the chosen position, or none if cancelled.
    RebootChosen(Option<usize>),
    /// The command that sets the default entry ran: whether it succeeded.
    DefaultCommitted(bool),
    /// The restart was requested of the system, whatever came of it.
    RebootAttempted,
}

/// What the caller is to do next.
#[derive(Debug)]
pub enum Action {
    /// Make the entry with this id the default one.
    SetDefault(String),
    /// Let the operator pick one of `labels`, with `default_index` highlighted.
    ChooseEntry { labels: Vec<String>, default_index: usize },
    /// Ask the operator whether to restart: `labels[0]` restarts.
    ConfirmReboot { labels: Vec<String>, default_index: usize },
    /// Restart the machine now.
    Reboot,
    /// Tell the operator that the default could not be set; the run ends.
    ReportCommitFailure,
    /// The run ends.
    Finish,
}

/// The kind of an action, without its data.
#[derive(Clone, Copy, Debug, PartialEq, Eq, Structural)]
pub enum Step {
    SetDefault,
    ChooseEntry,
    ConfirmReboot,
    Reboot,
    ReportCommitFailure,
    Finish,
}

impl Action {
    pub open spec fn kind(&self) -> Step {
        match self {
            Action::SetDefault(_) => Step::SetDefault,
            Action::ChooseEntry { .. } => Step::ChooseEntry,
            Action::ConfirmReboot { .. } => Step::ConfirmReboot,
            Action::Reboot => Step::Reboot,
            Action::ReportCommitFailure => Step::ReportCommitFailure,
            Action::Finish => Step::Finish,
        }
    }
}

/// The position highlighted first in the entry chooser: that of the default
/// id, or 0 where the default id is not listed.
pub open spec fn default_position(ids: Seq<Seq<char>>, default_id: Seq<char>) -> int {
    match first_index_of(default_id, ids) {
        Some(i) => i,
        None => 0,
    }
}

/// Where a run goes first, given the entry that the request matched.
pub open spec fn opening(ids: Seq<Seq<char>>, default_id: Seq<char>, matched: Option<int>) -> (
    Phase,
    Step,
) {
    match matched {
        Some(i) => if ids[i] != default_id {
            (Phase::CommittingTarget, Step::SetDefault)
        } else {
            (Phase::Rebooting, Step::Reboot)
        },
        None => (Phase::ChoosingEntry, Step::ChooseEntry),
    }
}

/// Where a run goes from `phase` on `event`. An event that does not answer
/// what the run waits for ends it.
pub open spec fn next(ids: Seq<Seq<char>>, default_id: Seq<char>, phase: Phase, event: Event) -> (
    Phase,
    Step,
) {
    match (phase, event) {
        (Phase::CommittingTarget, Event::DefaultCommitted(true)) => (Phase::Rebooting, Step::Reboot),
        (Phase::CommittingTarget, Event::DefaultCommitted(false)) => (
            Phase::Done,
            Step::ReportCommitFailure,
        ),
        (Phase::ChoosingEntry, Event::EntryChosen(None)) => (Phase::Done, Step::Finish),
        (Phase::ChoosingEntry, Event::EntryChosen(Some(i))) => if i < ids.len() {
            if ids[i as int] != default_id {
                (Phase::CommittingChoice, Step::SetDefault)
            } else {
                (Phase::ConfirmingReboot, Step::ConfirmReboot)
            }
        } else {
            (Phase::Done, Step::Finish)
        },
        (Phase::CommittingChoice, Event::DefaultCommitted(true)) => (
            Phase::ConfirmingReboot,
            Step::ConfirmReboot,
        ),
        (Phase::CommittingChoice, Event::DefaultCommitted(false)) => (
            Phase::Done,
            Step::ReportCommitFailure,
        ),
        (Phase::ConfirmingReboot, Event::RebootChosen(Some(0))) => (Phase::Rebooting, Step::Reboot),
        _ => (Phase::Done, Step::Finish),
    }
}

/// One run over a loaded catalog.
#[derive(Debug)]
pub struct Session {
    pub catalog: BootCatalog,
    pub phase: Phase,
}

/// The two labels of the restart prompt.
fn reboot_labels() -> (labels: Vec<String>)
    ensures
        labels@.len() == 2,
        labels@[0]@ == REBOOT_LABEL@,
        labels@[1]@ == NO_REBOOT_LABEL@,
{
    let mut labels: Vec<String> = Vec::new();
    labels.push(String::from_str(REBOOT_LABEL));
    labels.push(String::from_str(NO_REBOOT_LABEL));
    labels
}

/// The restart prompt, with the restart highlighted.
fn confirm_reboot() -> (a: Action)
    ensures
        a.kind() == Step::ConfirmReboot,
        a matches Action::ConfirmReboot { labels, default_index } && labels@.len() == 2
            && labels@[0]@ == REBOOT_LABEL@ && labels@[1]@ == NO_REBOOT_LABEL@ && default_index
            == 0,
{
    Action::ConfirmReboot { labels: reboot_labels(), default_index: 0 }
}

impl Session {
    /// The ids of the catalog, in display order.
    pub open spec fn ids(&self) -> Seq<Seq<char>> {
        self.catalog.ids()
    }

    /// The store's default id.
    pub open spec fn default_id(&self) -> Seq<char> {
        self.catalog.configuration.default_entry_id@
    }

    /// The position of `id` among the catalog's ids, or 0 if it is not there.
    pub fn position_of(catalog: &BootCatalog, id: &String) -> (r: usize)
        ensures
            r == default_position(catalog.ids(), id@),
    {
        let ghost s = catalog.ids();
        let mut i: usize = 0;
        while i < catalog.configuration.ordered_entries.len()
            invariant
                i <= s.len(),
                s == views(catalog.configuration.ordered_entries@),
                forall|j: int| 0 <= j < i ==> s[j] != id@,
            decreases s.len() - i,
        {
            if catalog.configuration.ordered_entries[i].eq(id) {
                let ghost c = choose|k: int|
                    0 <= k < s.len() && s[k] == id@ && forall|j: int| 0 <= j < k ==> s[j] != id@;
                assert(s[i as int] == id@);
                assert(c == i as int) by {
                    if c > i {
                        assert(s[i as int] != id@);
                    }
                }
                return i;
            }
            i = i + 1;
        }
        0
    }

    /// The entry chooser over all names in display order, the default entry
    /// highlighted.
    fn choose_entry(catalog: &BootCatalog) -> (a: Action)
        ensures
            a matches Action::ChooseEntry { labels, default_index } && views(labels@)
                == catalog.display_names() && default_index == default_position(
                catalog.ids(),
                catalog.configuration.default_entry_id@,
            ),
    {
        let mut labels: Vec<String> = Vec::new();
        let mut i: usize = 0;
        while i < catalog.entries.len()
            invariant
                i <= catalog.entries@.len(),
                views(labels@) == catalog.display_names().take(i as int),
            decreases catalog.entries@.len() - i,
        {
            let ghost before = labels@;
            labels.push(catalog.entries[i].display_name.clone());
            assert(views(labels@) =~= views(before).push(catalog.display_names()[i as int]));
            assert(views(labels@) =~= catalog.display_names().take(i + 1));
            i = i + 1;
        }
        assert(catalog.display_names().take(i as int) =~= catalog.display_names());
        let default_index = Session::position_of(catalog, &catalog.configuration.default_entry_id);
        Action::ChooseEntry { labels, default_index }
    }

    /// Starts a run on `catalog` with the requested entry name `target`
    /// (empty when none was requested). A name that matches an entry switches
    /// to it, unless it is the default already, and restarts without any
    /// prompt; otherwise the operator chooses among all entries.
    pub fn start(target: &str, catalog: BootCatalog) -> (r: (Session, Action))
        requires
            catalog.wf(),
        ensures
            r.0.catalog == catalog,
            (r.0.phase, r.1.kind()) == opening(
                catalog.ids(),
                catalog.configuration.default_entry_id@,
                matched_entry(target@, catalog.display_names()),
            ),
            r.1 matches Action::SetDefault(id) ==> matched_entry(target@, catalog.display_names())
                matches Some(i) && id@ == catalog.ids()[i],
            r.1 matches Action::ChooseEntry { labels, default_index } ==> views(labels@)
                == catalog.display_names() && default_index == default_position(
                catalog.ids(),
                catalog.configuration.default_entry_id@,
            ),
    {
        let found = match_target(target, &catalog);
        match found {
            Some(i) => {
                let ghost s = catalog.ids();
                assert(s[i as int] == catalog.configuration.ordered_entries@[i as int]@);
                if catalog.configuration.ordered_entries[i].eq(&catalog.configuration.default_entry_id) {
                    (Session { catalog, phase: Phase::Rebooting }, Action::Reboot)
                } else {
                    let id = catalog.configuration.ordered_entries[i].clone();
                    (Session { catalog, phase: Phase::CommittingTarget }, Action::SetDefault(id))
                }
            },
            None => {
                let a = Session::choose_entry(&catalog);
                (Session { catalog, phase: Phase::ChoosingEntry }, a)
            },
        }
    }

    /// Moves the run on by what came of the last action, and says what to do
    /// next.
    pub fn step(&mut self, event: Event) -> (a: Action)
        requires
            old(self).catalog.wf(),
        ensures
            final(self).catalog == old(self).catalog,
            (final(self).phase, a.kind()) == next(
                old(self).ids(),
                old(self).default_id(),
                old(self).phase,
                event,
            ),
            a matches Action::SetDefault(id) ==> event matches Event::EntryChosen(Some(i)) && id@
                == old(self).ids()[i as int],
            a matches Action::ConfirmReboot { labels, default_index } ==> labels@.len() == 2
                && labels@[0]@ == REBOOT_LABEL@ && labels@[1]@ == NO_REBOOT_LABEL@
                && default_index == 0,
    {
        let ghost s = self.ids();
        let (phase, a) = match (self.phase, event) {
            (Phase::CommittingTarget, Event::DefaultCommitted(true)) => (Phase::Rebooting, Action::Reboot),
            (Phase::CommittingTarget, Event::DefaultCommitted(false)) => (
                Phase::Done,
                Action::ReportCommitFailure,
            ),
            (Phase::ChoosingEntry, Event::EntryChosen(None)) => (Phase::Done, Action::Finish),
            (Phase::ChoosingEntry, Event::EntryChosen(Some(i))) => {
                if i < self.catalog.configuration.ordered_entries.len() {
                    assert(s[i as int] == self.catalog.configuration.ordered_entries@[i as int]@);
                    let id = &self.catalog.configuration.ordered_entries[i];
                    if id.eq(&self.catalog.configuration.default_entry_id) {
                        (Phase::ConfirmingReboot, confirm_reboot())
                    } else {
                        (Phase::CommittingChoice, Action::SetDefault(id.clone()))
                    }
                } else {
                    (Phase::Done, Action::Finish)
                }
            },
            (Phase::CommittingChoice, Event::DefaultCommitted(true)) => (
                Phase::ConfirmingReboot,
                confirm_reboot(),
            ),
            (Phase::CommittingChoice, Event::DefaultCommitted(false)) => (
                Phase::Done,
                Action::ReportCommitFailure,
            ),
            (Phase::ConfirmingReboot, Event::RebootChosen(Some(0))) => (Phase::Rebooting, Action::Reboot),
            _ => (Phase::Done, Action::Finish),
        };
        self.phase = phase;
        a
    }
}

} // verus!
