//! The order in which a batch reaches the node: recovery keys first, then the
//! recovery log, the commit, and the reveals one by one. The caller performs
//! each action and reports what came of it; this module decides what is next.

use crate::chain::{transactions_view, Transaction, TransactionView, Txid};
use crate::consensus::txid_of;
use crate::error::Error;
use crate::inscription_id::InscriptionId;
use crate::keys::{wif_of, Network, SecretKey};
use crate::recovery::{
    checked_descriptor_of, descriptor_of, import_request, import_succeeded, recovery_descriptor,
    recovery_label, recovery_log_line, recovery_log_line_of, ImportDescriptor,
};
use vstd::prelude::*;

verus! {

/// The pause after the import of a recovery key, in milliseconds.
pub const IMPORT_PAUSE_MILLIS: u64 = 100;

/// The pause after every reveal, in milliseconds.
pub const REVEAL_PAUSE_MILLIS: u64 = 1200;

/// After this many reveals the broadcast pauses once more.
pub const REVEAL_BATCH: usize = 20;

/// How the batch is to be broadcast.
#[derive(Clone, Copy, Debug, PartialEq, Eq, Structural)]
pub struct Settings {
    pub no_backup: bool,
    pub only_commit: bool,
    pub dry_run: bool,
    /// The pause after every batch of reveals, in milliseconds.
    pub batch_pause_millis: u64,
    pub network: Network,
}

/// What the broadcast is waiting for.
#[derive(Clone, Copy, Debug, PartialEq, Eq, Structural)]
pub enum Phase {
    Start,
    /// The checksum of the descriptor of this slot's recovery key.
    Describing { slot: usize },
    /// The import of this slot's recovery key.
    Importing { slot: usize },
    /// The end of the pause after this slot's import.
    ImportPause { slot: usize },
    /// The recovery log to be on disk.
    Logging,
    /// The commit to be accepted.
    Committing,
    /// This slot's reveal to be accepted.
    Revealing { slot: usize },
    /// The end of the pause after this slot's reveal.
    RevealPause { slot: usize },
    /// The end of the pause after the batch that this slot's reveal closed.
    BatchPause { slot: usize },
    Done,
    Failed,
}

/// What the caller is to do next.
#[derive(Clone, Copy, Debug, PartialEq, Eq)]
pub enum Action {
    /// Ask the node for the checksum of the descriptor of this slot's recovery key.
    GetDescriptorInfo { slot: usize },
    /// Have the node's wallet import this slot's recovery key.
    ImportDescriptor { slot: usize },
    /// Wait.
    Pause { millis: u64 },
    /// Write the recovery log and make it durable.
    WriteRecoveryLog,
    /// Have the wallet sign the commit, and send it.
    SendCommit,
    /// Send this slot's reveal.
    SendReveal { slot: usize },
    /// Print the result: the batch is through.
    Report,
    /// Stop: the batch has failed.
    Fail(Error),
}

/// What came of the last action, as far as the order depends on it.
#[derive(Clone, Copy, Debug, PartialEq, Eq, Structural)]
pub enum Reply {
    Start,
    Described { ok: bool },
    Imported { ok: bool },
    Paused,
    LogWritten { ok: bool },
    CommitSent { ok: bool },
    RevealSent { ok: bool },
}

/// What came of the last action.
#[derive(Clone, Debug, PartialEq, Eq)]
pub enum Event {
    /// Nothing yet: the broadcast begins.
    Start,
    /// The node's checksum for the descriptor, unless the call failed.
    DescriptorInfo { checksum: Option<String> },
    /// Whether each descriptor of the import succeeded, unless the call failed.
    Imported { results: Option<Vec<bool>> },
    Paused,
    LogWritten { ok: bool },
    /// The id under which the node took the commit, unless it refused.
    CommitSent { txid: Option<Txid> },
    /// The id under which the node took the reveal, unless it refused.
    RevealSent { txid: Option<Txid> },
}

impl Event {
    /// What the event says, as far as the order depends on it.
    pub open spec fn reply(&self) -> Reply {
        match *self {
            Event::Start => Reply::Start,
            Event::DescriptorInfo { checksum } => Reply::Described { ok: checksum is Some },
            Event::Imported { results } => Reply::Imported {
                ok: results is Some && forall|i: int|
                    0 <= i < results->0@.len() ==> results->0@[i],
            },
            Event::Paused => Reply::Paused,
            Event::LogWritten { ok } => Reply::LogWritten { ok },
            Event::CommitSent { txid } => Reply::CommitSent { ok: txid is Some },
            Event::RevealSent { txid } => Reply::RevealSent { ok: txid is Some },
        }
    }
}

/// What follows the pauses after the reveal of `slot`: the next reveal, or
/// the report after the last.
pub open spec fn after_reveal(slot: usize, slots: nat) -> (Phase, Action) {
    if slot + 1 < slots {
        (Phase::Revealing { slot: (slot + 1) as usize }, Action::SendReveal { slot: (slot + 1) as usize })
    } else {
        (Phase::Done, Action::Report)
    }
}

/// The phase and the action that follow `reply` in `phase`, for a batch of
/// `slots` slots. A dry run reports at once. Otherwise every recovery key is
/// described, imported and followed by a pause, unless backups are off; then
/// the log is written, the commit is sent, and unless only the commit is
/// wanted each reveal is sent in the order of the slots, with a pause after
/// each and one more after each full batch. A failure ends the broadcast
/// with its error, and so does a reply that the phase was not waiting for;
/// a reveal that failed is named by its slot and by `revealing`, its id.
pub open spec fn transition(
    phase: Phase,
    reply: Reply,
    settings: Settings,
    slots: nat,
    revealing: Txid,
) -> (Phase, Action) {
    match (phase, reply) {
        (Phase::Start, Reply::Start) => if settings.dry_run {
            (Phase::Done, Action::Report)
        } else if !settings.no_backup && slots > 0 {
            (Phase::Describing { slot: 0 }, Action::GetDescriptorInfo { slot: 0 })
        } else {
            (Phase::Logging, Action::WriteRecoveryLog)
        },
        (Phase::Describing { slot }, Reply::Described { ok }) => if ok {
            (Phase::Importing { slot }, Action::ImportDescriptor { slot })
        } else {
            (Phase::Failed, Action::Fail(Error::RecoveryImportFailed))
        },
        (Phase::Importing { slot }, Reply::Imported { ok }) => if ok {
            (Phase::ImportPause { slot }, Action::Pause { millis: IMPORT_PAUSE_MILLIS })
        } else {
            (Phase::Failed, Action::Fail(Error::RecoveryImportFailed))
        },
        (Phase::ImportPause { slot }, Reply::Paused) => if slot + 1 < slots {
            (
                Phase::Describing { slot: (slot + 1) as usize },
                Action::GetDescriptorInfo { slot: (slot + 1) as usize },
            )
        } else {
            (Phase::Logging, Action::WriteRecoveryLog)
        },
        (Phase::Logging, Reply::LogWritten { ok }) => if ok {
            (Phase::Committing, Action::SendCommit)
        } else {
            (Phase::Failed, Action::Fail(Error::IoError))
        },
        (Phase::Committing, Reply::CommitSent { ok }) => if !ok {
            (Phase::Failed, Action::Fail(Error::CommitBroadcastFailed))
        } else if settings.only_commit || slots == 0 {
            (Phase::Done, Action::Report)
        } else {
            (Phase::Revealing { slot: 0 }, Action::SendReveal { slot: 0 })
        },
        (Phase::Revealing { slot }, Reply::RevealSent { ok }) => if ok {
            (Phase::RevealPause { slot }, Action::Pause { millis: REVEAL_PAUSE_MILLIS })
        } else {
            (Phase::Failed, Action::Fail(Error::RevealBroadcastFailed { slot, txid: revealing }))
        },
        (Phase::RevealPause { slot }, Reply::Paused) => if (slot + 1) % (REVEAL_BATCH as int) == 0 {
            (Phase::BatchPause { slot }, Action::Pause { millis: settings.batch_pause_millis })
        } else {
            after_reveal(slot, slots)
        },
        (Phase::BatchPause { slot }, Reply::Paused) => after_reveal(slot, slots),
        _ => (Phase::Failed, Action::Fail(Error::OutOfTurn)),
    }
}

impl Phase {
    /// The slot that the phase is about, if it is about one.
    pub open spec fn slot(self) -> Option<usize> {
        match self {
            Phase::Describing { slot } => Some(slot),
            Phase::Importing { slot } => Some(slot),
            Phase::ImportPause { slot } => Some(slot),
            Phase::Revealing { slot } => Some(slot),
            Phase::RevealPause { slot } => Some(slot),
            Phase::BatchPause { slot } => Some(slot),
            _ => None,
        }
    }

    /// Whether the commit has not been sent yet in this phase.
    pub open spec fn before_commit(self) -> bool {
        match self {
            Phase::Start => true,
            Phase::Describing { .. } => true,
            Phase::Importing { .. } => true,
            Phase::ImportPause { .. } => true,
            Phase::Logging => true,
            Phase::Committing => true,
            _ => false,
        }
    }
}

/// What the event says, as far as the order depends on it.
pub fn summarize(event: &Event) -> (reply: Reply)
    ensures
        reply == event.reply(),
{
    match event {
        Event::Start => Reply::Start,
        Event::DescriptorInfo { checksum } => Reply::Described { ok: checksum.is_some() },
        Event::Imported { results } => match results {
            Some(results) => Reply::Imported { ok: import_succeeded(results) },
            None => Reply::Imported { ok: false },
        },
        Event::Paused => Reply::Paused,
        Event::LogWritten { ok } => Reply::LogWritten { ok: *ok },
        Event::CommitSent { txid } => Reply::CommitSent { ok: txid.is_some() },
        Event::RevealSent { txid } => Reply::RevealSent { ok: txid.is_some() },
    }
}

/// What follows the pauses after the reveal of `slot`.
fn next_after_reveal(slot: usize, slots: usize) -> (r: (Phase, Action))
    requires
        slot < slots,
    ensures
        r == after_reveal(slot, slots as nat),
{
    if slot + 1 < slots {
        (Phase::Revealing { slot: slot + 1 }, Action::SendReveal { slot: slot + 1 })
    } else {
        (Phase::Done, Action::Report)
    }
}

/// The phase and the action that follow `reply` in `phase`.
pub fn next(phase: Phase, reply: Reply, settings: Settings, slots: usize, revealing: Txid) -> (r: (
    Phase,
    Action,
))
    requires
        phase.slot() is Some ==> phase.slot()->0 < slots,
    ensures
        r == transition(phase, reply, settings, slots as nat, revealing),
{
    let out_of_turn = (Phase::Failed, Action::Fail(Error::OutOfTurn));
    match phase {
        Phase::Start => match reply {
            Reply::Start => if settings.dry_run {
                (Phase::Done, Action::Report)
            } else if !settings.no_backup && slots > 0 {
                (Phase::Describing { slot: 0 }, Action::GetDescriptorInfo { slot: 0 })
            } else {
                (Phase::Logging, Action::WriteRecoveryLog)
            },
            _ => out_of_turn,
        },
        Phase::Describing { slot } => match reply {
            Reply::Described { ok } => if ok {
                (Phase::Importing { slot }, Action::ImportDescriptor { slot })
            } else {
                (Phase::Failed, Action::Fail(Error::RecoveryImportFailed))
            },
            _ => out_of_turn,
        },
        Phase::Importing { slot } => match reply {
            Reply::Imported { ok } => if ok {
                (Phase::ImportPause { slot }, Action::Pause { millis: IMPORT_PAUSE_MILLIS })
            } else {
                (Phase::Failed, Action::Fail(Error::RecoveryImportFailed))
            },
            _ => out_of_turn,
        },
        Phase::ImportPause { slot } => match reply {
            Reply::Paused => if slot + 1 < slots {
                (Phase::Describing { slot: slot + 1 }, Action::GetDescriptorInfo { slot: slot + 1 })
            } else {
                (Phase::Logging, Action::WriteRecoveryLog)
            },
            _ => out_of_turn,
        },
        Phase::Logging => match reply {
            Reply::LogWritten { ok } => if ok {
                (Phase::Committing, Action::SendCommit)
            } else {
                (Phase::Failed, Action::Fail(Error::IoError))
            },
            _ => out_of_turn,
        },
        Phase::Committing => match reply {
            Reply::CommitSent { ok } => if !ok {
                (Phase::Failed, Action::Fail(Error::CommitBroadcastFailed))
            } else if settings.only_commit || slots == 0 {
                (Phase::Done, Action::Report)
            } else {
                (Phase::Revealing { slot: 0 }, Action::SendReveal { slot: 0 })
            },
            _ => out_of_turn,
        },
        Phase::Revealing { slot } => match reply {
            Reply::RevealSent { ok } => if ok {
                (Phase::RevealPause { slot }, Action::Pause { millis: REVEAL_PAUSE_MILLIS })
            } else {
                (Phase::Failed, Action::Fail(Error::RevealBroadcastFailed { slot, txid: revealing }))
            },
            _ => out_of_turn,
        },
        Phase::RevealPause { slot } => match reply {
            Reply::Paused => if (slot + 1) % REVEAL_BATCH == 0 {
                (Phase::BatchPause { slot }, Action::Pause { millis: settings.batch_pause_millis })
            } else {
                next_after_reveal(slot, slots)
            },
            _ => out_of_turn,
        },
        Phase::BatchPause { slot } => match reply {
            Reply::Paused => next_after_reveal(slot, slots),
            _ => out_of_turn,
        },
        _ => out_of_turn,
    }
}

/// No reveal is sent before the commit was accepted, and the reveals are
/// sent in the order of their slots, each after the one before it was
/// accepted.
pub proof fn lemma_reveals_follow_in_order(
    phase: Phase,
    reply: Reply,
    settings: Settings,
    slots: nat,
    revealing: Txid,
    slot: usize,
)
    requires
        slots <= usize::MAX,
        transition(phase, reply, settings, slots, revealing).1 == (Action::SendReveal { slot }),
    ensures
        slot < slots,
        !settings.dry_run || phase != Phase::Start,
        slot == 0 ==> phase == Phase::Committing && reply == (Reply::CommitSent { ok: true }),
        slot > 0 ==> reply == Reply::Paused && (phase == (Phase::RevealPause {
            slot: (slot - 1) as usize,
        }) || phase == (Phase::BatchPause { slot: (slot - 1) as usize })),
{
}

/// The commit is sent only once the recovery log is on disk, and the log is
/// written only once every recovery key was imported, unless backups are off.
pub proof fn lemma_commit_follows_backup(
    phase: Phase,
    reply: Reply,
    settings: Settings,
    slots: nat,
    revealing: Txid,
)
    ensures
        transition(phase, reply, settings, slots, revealing).1 == Action::SendCommit ==> phase
            == Phase::Logging && reply == (Reply::LogWritten { ok: true }),
        transition(phase, reply, settings, slots, revealing).1 == Action::WriteRecoveryLog ==> {
            ||| phase == Phase::Start && reply == Reply::Start && !settings.dry_run && (
            settings.no_backup || slots == 0)
            ||| phase is ImportPause && reply == Reply::Paused && phase.slot()->0 + 1 >= slots
        },
        settings.dry_run ==> transition(Phase::Start, Reply::Start, settings, slots, revealing)
            == (Phase::Done, Action::Report),
{
}

/// What a batch reports when it is through.
#[derive(Clone, Debug, PartialEq, Eq)]
pub struct Output {
    pub commit: Txid,
    pub inscription: Vec<InscriptionId>,
    pub reveal: Vec<Txid>,
    pub fees: u64,
}

/// The ids of the inscriptions that the reveals with these ids make.
pub open spec fn inscription_ids(reveal: Seq<Txid>) -> Seq<InscriptionId> {
    Seq::new(reveal.len(), |i: int| InscriptionId { txid: reveal[i], index: 0 })
}

/// The ids of a row of transactions.
pub open spec fn txids_of(txs: Seq<TransactionView>) -> Seq<Txid> {
    Seq::new(txs.len(), |i: int| txid_of(txs[i]))
}

/// A batch on its way to the node.
pub struct Broadcast {
    pub phase: Phase,
    pub settings: Settings,
    pub commit: Transaction,
    pub reveals: Vec<Transaction>,
    pub recovery_keys: Vec<SecretKey>,
    pub fees: u64,
    /// The checksum that the node gave for the descriptor that is being imported.
    pub checksum: Option<String>,
    /// The id under which the node took the commit.
    pub commit_txid: Option<Txid>,
    /// The ids under which the node took the reveals sent so far.
    pub reveal_txids: Vec<Txid>,
}

impl Broadcast {
    /// The number of slots of the batch.
    pub open spec fn slots(&self) -> nat {
        self.reveals@.len()
    }

    /// Whether what was recorded fits the phase: every slot has a reveal and
    /// a recovery key; before the commit was accepted nothing was sent; while
    /// slot `i` is revealed the reveals of the `i` slots before it were
    /// accepted, and no others.
    pub open spec fn wf(&self) -> bool {
        &&& self.recovery_keys@.len() == self.reveals@.len()
        &&& self.phase.slot() is Some ==> self.phase.slot()->0 < self.slots()
        &&& self.phase is Importing ==> self.checksum is Some
        &&& self.phase.before_commit() ==> self.commit_txid is None && self.reveal_txids@.len() == 0
        &&& self.phase is Revealing ==> self.commit_txid is Some && self.reveal_txids@.len()
            == self.phase.slot()->0
        &&& (self.phase is RevealPause || self.phase is BatchPause) ==> self.commit_txid is Some
            && self.reveal_txids@.len() == self.phase.slot()->0 + 1
        &&& self.phase is Done ==> if self.commit_txid is None {
            self.settings.dry_run && self.reveal_txids@.len() == 0
        } else {
            self.reveal_txids@.len() == 0 || self.reveal_txids@.len() == self.slots()
        }
    }

    /// Whether what was recorded fits the phase.
    pub fn is_wf(&self) -> (r: bool)
        ensures
            r == self.wf(),
    {
        let slots = self.reveals.len();
        let sent = self.reveal_txids.len();
        if self.recovery_keys.len() != slots {
            return false;
        }
        match self.phase {
            Phase::Start => self.commit_txid.is_none() && sent == 0,
            Phase::Describing { slot } => slot < slots && self.commit_txid.is_none() && sent == 0,
            Phase::Importing { slot } => slot < slots && self.checksum.is_some()
                && self.commit_txid.is_none() && sent == 0,
            Phase::ImportPause { slot } => slot < slots && self.commit_txid.is_none() && sent == 0,
            Phase::Logging => self.commit_txid.is_none() && sent == 0,
            Phase::Committing => self.commit_txid.is_none() && sent == 0,
            Phase::Revealing { slot } => slot < slots && self.commit_txid.is_some() && sent == slot,
            Phase::RevealPause { slot } => slot < slots && self.commit_txid.is_some() && sent
                == slot + 1,
            Phase::BatchPause { slot } => slot < slots && self.commit_txid.is_some() && sent
                == slot + 1,
            Phase::Done => if self.commit_txid.is_none() {
                self.settings.dry_run && sent == 0
            } else {
                sent == 0 || sent == slots
            },
            Phase::Failed => true,
        }
    }

    /// The id of the reveal that is being sent, while one is; else that of the commit.
    pub open spec fn revealing(&self) -> Txid {
        match self.phase {
            Phase::Revealing { slot } => txid_of(self.reveals@[slot as int]@),
            _ => txid_of(self.commit@),
        }
    }

    /// A batch that waits to begin.
    pub fn new(
        settings: Settings,
        commit: Transaction,
        reveals: Vec<Transaction>,
        recovery_keys: Vec<SecretKey>,
        fees: u64,
    ) -> (broadcast: Broadcast)
        requires
            reveals@.len() == recovery_keys@.len(),
        ensures
            broadcast.wf(),
            broadcast.phase == Phase::Start,
            broadcast.settings == settings,
            broadcast.commit == commit,
            broadcast.reveals == reveals,
            broadcast.recovery_keys == recovery_keys,
            broadcast.fees == fees,
    {
        Broadcast {
            phase: Phase::Start,
            settings,
            commit,
            reveals,
            recovery_keys,
            fees,
            checksum: None,
            commit_txid: None,
            reveal_txids: Vec::new(),
        }
    }

    /// Takes in what came of the last action and says what to do next. The
    /// checksum of a descriptor is kept for its import, and the ids under
    /// which the node took the commit and each reveal are kept for the report.
    pub fn step(&mut self, event: Event) -> (action: Action)
        requires
            old(self).wf(),
        ensures
            final(self).wf(),
            (final(self).phase, action) == transition(
                old(self).phase,
                event.reply(),
                old(self).settings,
                old(self).slots(),
                old(self).revealing(),
            ),
            final(self).settings == old(self).settings,
            final(self).commit == old(self).commit,
            final(self).reveals == old(self).reveals,
            final(self).recovery_keys == old(self).recovery_keys,
            final(self).fees == old(self).fees,
            final(self).commit_txid == if old(self).phase is Committing && event is CommitSent {
                event->CommitSent_txid
            } else {
                old(self).commit_txid
            },
            final(self).reveal_txids@ == if old(self).phase is Revealing && event is RevealSent
                && event->RevealSent_txid is Some {
                old(self).reveal_txids@.push(event->RevealSent_txid->0)
            } else {
                old(self).reveal_txids@
            },
    {
        let reply = summarize(&event);
        let revealing = match self.phase {
            Phase::Revealing { slot } => self.reveals[slot].txid(),
            _ => self.commit.txid(),
        };
        let (phase, action) = next(
            self.phase,
            reply,
            self.settings,
            self.reveals.len(),
            revealing,
        );
        match event {
            Event::DescriptorInfo { checksum } => {
                if let Phase::Describing { slot } = self.phase {
                    self.checksum = checksum;
                }
            },
            Event::CommitSent { txid } => {
                if let Phase::Committing = self.phase {
                    self.commit_txid = txid;
                }
            },
            Event::RevealSent { txid } => {
                if let Phase::Revealing { slot } = self.phase {
                    if let Some(txid) = txid {
                        self.reveal_txids.push(txid);
                    }
                }
            },
            _ => {},
        }
        self.phase = phase;
        action
    }

    /// The descriptor of the recovery key of `slot`, for which the node is
    /// asked a checksum.
    pub fn descriptor(&self, slot: usize) -> (descriptor: String)
        requires
            slot < self.recovery_keys@.len(),
        ensures
            descriptor@ == descriptor_of(
                wif_of(self.recovery_keys@[slot as int]@, self.settings.network),
            ),
    {
        recovery_descriptor(&self.recovery_keys[slot], self.settings.network)
    }

    /// The request to import the recovery key of `slot` under the checksum
    /// that the node gave last, if it gave one.
    pub fn import(&self, slot: usize) -> (request: Option<ImportDescriptor>)
        requires
            slot < self.recovery_keys@.len(),
        ensures
            request is Some <==> self.checksum is Some,
            request is Some ==> {
                &&& request->0.descriptor@ == checked_descriptor_of(
                    wif_of(self.recovery_keys@[slot as int]@, self.settings.network),
                    self.checksum->0@,
                )
                &&& request->0.timestamp_now
                &&& !request->0.active
                &&& !request->0.internal
                &&& request->0.label@ == recovery_label()
            },
    {
        match &self.checksum {
            Some(checksum) => Some(
                import_request(
                    &self.recovery_keys[slot],
                    self.settings.network,
                    checksum.as_str(),
                ),
            ),
            None => None,
        }
    }

    /// The lines of the recovery log: one for each slot, in their order.
    pub fn recovery_log(&self) -> (lines: Vec<String>)
        requires
            self.wf(),
        ensures
            lines@.len() == self.slots(),
            forall|i: int|
                0 <= i < self.slots() ==> (#[trigger] lines@[i])@ == recovery_log_line_of(
                    self.reveals@[i]@,
                    self.recovery_keys@[i]@,
                ),
    {
        let mut lines: Vec<String> = Vec::new();
        let mut i: usize = 0;
        while i < self.reveals.len()
            invariant
                i <= self.reveals@.len() == self.recovery_keys@.len(),
                lines@.len() == i,
                forall|j: int|
                    0 <= j < i ==> (#[trigger] lines@[j])@ == recovery_log_line_of(
                        self.reveals@[j]@,
                        self.recovery_keys@[j]@,
                    ),
            decreases self.reveals@.len() - i,
        {
            lines.push(recovery_log_line(&self.reveals[i], &self.recovery_keys[i]));
            i += 1;
        }
        lines
    }

    /// The ids that the report names: those under which the node took the
    /// commit and the reveals, or in a dry run those of the transactions as
    /// they were planned.
    pub open spec fn reported_ids(&self) -> (Txid, Seq<Txid>) {
        match self.commit_txid {
            Some(commit) => (commit, self.reveal_txids@),
            None => (txid_of(self.commit@), txids_of(transactions_view(self.reveals@))),
        }
    }

    /// The report of a batch that is through: the commit's id, the reveals'
    /// ids, the inscriptions they make, and the fees.
    pub fn output(&self) -> (output: Option<Output>)
        ensures
            output is Some <==> self.phase is Done,
            output is Some ==> {
                &&& output->0.commit == self.reported_ids().0
                &&& output->0.reveal@ == self.reported_ids().1
                &&& output->0.inscription@ == inscription_ids(self.reported_ids().1)
                &&& output->0.fees == self.fees
            },
    {
        if let Phase::Done = self.phase {
        } else {
            return None;
        }
        let mut ids: Vec<Txid> = Vec::new();
        let commit = match self.commit_txid {
            Some(commit) => {
                let mut i: usize = 0;
                while i < self.reveal_txids.len()
                    invariant
                        i <= self.reveal_txids@.len(),
                        ids@ == self.reveal_txids@.take(i as int),
                    decreases self.reveal_txids@.len() - i,
                {
                    ids.push(self.reveal_txids[i]);
                    assert(self.reveal_txids@.take(i + 1) == self.reveal_txids@.take(
                        i as int,
                    ).push(self.reveal_txids@[i as int]));
                    i += 1;
                }
                assert(self.reveal_txids@.take(self.reveal_txids@.len() as int)
                    == self.reveal_txids@);
                commit
            },
            None => {
                let mut i: usize = 0;
                while i < self.reveals.len()
                    invariant
                        i <= self.reveals@.len(),
                        ids@.len() == i,
                        forall|j: int| 0 <= j < i ==> #[trigger] ids@[j] == txid_of(self.reveals@[j]@),
                    decreases self.reveals@.len() - i,
                {
                    ids.push(self.reveals[i].txid());
                    i += 1;
                }
                assert(ids@ =~= txids_of(transactions_view(self.reveals@)));
                self.commit.txid()
            },
        };
        let mut inscription: Vec<InscriptionId> = Vec::new();
        let mut i: usize = 0;
        while i < ids.len()
            invariant
                i <= ids@.len(),
                inscription@.len() == i,
                forall|j: int|
                    0 <= j < i ==> #[trigger] inscription@[j] == (InscriptionId {
                        txid: ids@[j],
                        index: 0,
                    }),
            decreases ids@.len() - i,
        {
            inscription.push(InscriptionId { txid: ids[i], index: 0 });
            i += 1;
        }
        assert(inscription@ =~= inscription_ids(ids@));
        Some(Output { commit, inscription, reveal: ids, fees: self.fees })
    }
}

} // verus!
