use inscribes::broadcast::{next, summarize, Action, Broadcast, Event, Phase, Reply, Settings};
use inscribes::chain::{OutPoint, Transaction, TxIn, TxOut, Txid};
use inscribes::error::Error;
use inscribes::keys::{Network, SecretKey};

fn settings() -> Settings {
    Settings {
        no_backup: false,
        only_commit: false,
        dry_run: false,
        batch_pause_millis: 1200,
        network: Network::Regtest,
    }
}

fn tx(mark: u8) -> Transaction {
    Transaction {
        version: 1,
        lock_time: 0,
        input: vec![TxIn::unsigned(OutPoint { txid: Txid { bytes: [mark; 32] }, vout: 0 })],
        output: vec![TxOut { value: 330, script_pubkey: vec![0x51, 0x20, mark] }],
    }
}

fn batch(slots: u8, settings: Settings) -> Broadcast {
    Broadcast::new(
        settings,
        tx(0),
        (1..=slots).map(tx).collect(),
        (1..=slots).map(|i| SecretKey::from_bytes([i; 32]).unwrap()).collect(),
        1234,
    )
}

fn id(mark: u8) -> Txid {
    Txid { bytes: [mark; 32] }
}

#[test]
fn batch_of_two_goes_through_in_order() {
    let mut b = batch(2, settings());
    assert_eq!(b.step(Event::Start), Action::GetDescriptorInfo { slot: 0 });
    assert_eq!(
        b.step(Event::DescriptorInfo { checksum: Some("abcd".to_string()) }),
        Action::ImportDescriptor { slot: 0 }
    );
    assert_eq!(b.import(0).unwrap().descriptor, format!("{}#abcd", b.descriptor(0)));
    assert_eq!(b.step(Event::Imported { results: Some(vec![true]) }), Action::Pause { millis: 100 });
    assert_eq!(b.step(Event::Paused), Action::GetDescriptorInfo { slot: 1 });
    assert_eq!(
        b.step(Event::DescriptorInfo { checksum: Some("wxyz".to_string()) }),
        Action::ImportDescriptor { slot: 1 }
    );
    assert_eq!(b.import(1).unwrap().descriptor, format!("{}#wxyz", b.descriptor(1)));
    assert_eq!(b.step(Event::Imported { results: Some(vec![true, true]) }), Action::Pause { millis: 100 });
    assert_eq!(b.step(Event::Paused), Action::WriteRecoveryLog);
    assert_eq!(b.phase, Phase::Logging);
    assert_eq!(b.step(Event::LogWritten { ok: true }), Action::SendCommit);
    assert_eq!(b.commit_txid, None);
    assert_eq!(b.step(Event::CommitSent { txid: Some(id(0xc0)) }), Action::SendReveal { slot: 0 });
    assert_eq!(b.commit_txid, Some(id(0xc0)));
    assert_eq!(b.step(Event::RevealSent { txid: Some(id(0xa1)) }), Action::Pause { millis: 1200 });
    assert_eq!(b.step(Event::Paused), Action::SendReveal { slot: 1 });
    assert_eq!(b.step(Event::RevealSent { txid: Some(id(0xa2)) }), Action::Pause { millis: 1200 });
    assert!(b.output().is_none());
    assert_eq!(b.step(Event::Paused), Action::Report);
    assert_eq!(b.phase, Phase::Done);
    let output = b.output().unwrap();
    assert_eq!(output.commit, id(0xc0));
    assert_eq!(output.reveal, vec![id(0xa1), id(0xa2)]);
    assert_eq!(output.inscription.len(), 2);
    assert_eq!(output.inscription[0].txid, id(0xa1));
    assert_eq!(output.inscription[0].index, 0);
    assert_eq!(output.inscription[1].txid, id(0xa2));
    assert_eq!(output.fees, 1234);
}

#[test]
fn without_backup_the_log_comes_first() {
    let mut asked = settings();
    asked.no_backup = true;
    let mut b = batch(2, asked);
    assert_eq!(b.step(Event::Start), Action::WriteRecoveryLog);
    assert_eq!(b.step(Event::LogWritten { ok: true }), Action::SendCommit);
}

#[test]
fn only_commit_keeps_the_reveals_back() {
    let mut asked = settings();
    asked.no_backup = true;
    asked.only_commit = true;
    let mut b = batch(2, asked);
    b.step(Event::Start);
    b.step(Event::LogWritten { ok: true });
    assert_eq!(b.step(Event::CommitSent { txid: Some(id(0xc0)) }), Action::Report);
    let output = b.output().unwrap();
    assert_eq!(output.commit, id(0xc0));
    assert!(output.reveal.is_empty());
    assert!(output.inscription.is_empty());
}

#[test]
fn dry_run_sends_nothing() {
    let mut asked = settings();
    asked.dry_run = true;
    let mut b = batch(2, asked);
    assert_eq!(b.step(Event::Start), Action::Report);
    let output = b.output().unwrap();
    assert_eq!(output.commit, tx(0).txid());
    assert_eq!(output.reveal, vec![tx(1).txid(), tx(2).txid()]);
}

#[test]
fn every_failure_ends_the_broadcast() {
    let mut b = batch(1, settings());
    b.step(Event::Start);
    assert_eq!(b.step(Event::DescriptorInfo { checksum: None }), Action::Fail(Error::RecoveryImportFailed));
    assert_eq!(b.phase, Phase::Failed);
    assert_eq!(b.step(Event::Paused), Action::Fail(Error::OutOfTurn));

    let mut b = batch(1, settings());
    b.step(Event::Start);
    b.step(Event::DescriptorInfo { checksum: Some("c".to_string()) });
    assert_eq!(
        b.step(Event::Imported { results: Some(vec![true, false]) }),
        Action::Fail(Error::RecoveryImportFailed)
    );

    let mut b = batch(1, settings());
    b.step(Event::Start);
    b.step(Event::DescriptorInfo { checksum: Some("c".to_string()) });
    assert_eq!(b.step(Event::Imported { results: None }), Action::Fail(Error::RecoveryImportFailed));

    let mut asked = settings();
    asked.no_backup = true;
    let mut b = batch(2, asked);
    b.step(Event::Start);
    assert_eq!(b.step(Event::LogWritten { ok: false }), Action::Fail(Error::IoError));

    let mut b = batch(2, asked);
    b.step(Event::Start);
    b.step(Event::LogWritten { ok: true });
    assert_eq!(b.step(Event::CommitSent { txid: None }), Action::Fail(Error::CommitBroadcastFailed));
    assert!(b.output().is_none());

    let mut b = batch(2, asked);
    b.step(Event::Start);
    b.step(Event::LogWritten { ok: true });
    b.step(Event::CommitSent { txid: Some(id(1)) });
    b.step(Event::RevealSent { txid: Some(id(2)) });
    b.step(Event::Paused);
    assert_eq!(
        b.step(Event::RevealSent { txid: None }),
        Action::Fail(Error::RevealBroadcastFailed { slot: 1, txid: tx(2).txid() })
    );
    assert_eq!(b.reveal_txids, vec![id(2)]);
}

#[test]
fn out_of_turn_events_end_the_broadcast() {
    let mut b = batch(1, settings());
    assert_eq!(b.step(Event::Paused), Action::Fail(Error::OutOfTurn));
    let mut b = batch(1, settings());
    b.step(Event::Start);
    assert_eq!(b.step(Event::CommitSent { txid: Some(id(1)) }), Action::Fail(Error::OutOfTurn));
    assert_eq!(b.commit_txid, None);
    let mut b = batch(1, settings());
    assert_eq!(b.step(Event::RevealSent { txid: Some(id(1)) }), Action::Fail(Error::OutOfTurn));
    assert!(b.reveal_txids.is_empty());
}

#[test]
fn a_longer_pause_follows_every_twentieth_reveal() {
    let mut asked = settings();
    asked.no_backup = true;
    asked.batch_pause_millis = 5000;
    let mut b = batch(41, asked);
    b.step(Event::Start);
    b.step(Event::LogWritten { ok: true });
    let mut action = b.step(Event::CommitSent { txid: Some(id(0)) });
    let mut pauses = vec![];
    for slot in 0..41usize {
        assert_eq!(action, Action::SendReveal { slot });
        assert_eq!(
            b.step(Event::RevealSent { txid: Some(id(slot as u8)) }),
            Action::Pause { millis: 1200 }
        );
        action = b.step(Event::Paused);
        if action == (Action::Pause { millis: 5000 }) {
            pauses.push(slot);
            action = b.step(Event::Paused);
        }
    }
    assert_eq!(action, Action::Report);
    assert_eq!(pauses, vec![19, 39]);
    assert_eq!(b.output().unwrap().reveal.len(), 41);
}

#[test]
fn empty_batch_sends_the_commit_alone() {
    let mut b = batch(0, settings());
    assert_eq!(b.step(Event::Start), Action::WriteRecoveryLog);
    assert!(b.recovery_log().is_empty());
    assert_eq!(b.step(Event::LogWritten { ok: true }), Action::SendCommit);
    assert_eq!(b.step(Event::CommitSent { txid: Some(id(1)) }), Action::Report);
}

#[test]
fn replies_sum_events_up() {
    assert_eq!(summarize(&Event::Start), Reply::Start);
    assert_eq!(summarize(&Event::Paused), Reply::Paused);
    assert_eq!(summarize(&Event::DescriptorInfo { checksum: None }), Reply::Described { ok: false });
    assert_eq!(
        summarize(&Event::DescriptorInfo { checksum: Some(String::new()) }),
        Reply::Described { ok: true }
    );
    assert_eq!(summarize(&Event::Imported { results: Some(vec![]) }), Reply::Imported { ok: true });
    assert_eq!(
        summarize(&Event::Imported { results: Some(vec![false]) }),
        Reply::Imported { ok: false }
    );
    assert_eq!(summarize(&Event::LogWritten { ok: true }), Reply::LogWritten { ok: true });
    assert_eq!(summarize(&Event::CommitSent { txid: None }), Reply::CommitSent { ok: false });
    assert_eq!(summarize(&Event::RevealSent { txid: Some(id(1)) }), Reply::RevealSent { ok: true });
}

#[test]
fn next_is_the_transition_table() {
    let s = settings();
    assert_eq!(
        next(Phase::ImportPause { slot: 0 }, Reply::Paused, s, 1, id(0)),
        (Phase::Logging, Action::WriteRecoveryLog)
    );
    assert_eq!(
        next(Phase::RevealPause { slot: 19 }, Reply::Paused, s, 20, id(0)),
        (Phase::BatchPause { slot: 19 }, Action::Pause { millis: 1200 })
    );
    assert_eq!(
        next(Phase::BatchPause { slot: 19 }, Reply::Paused, s, 20, id(0)),
        (Phase::Done, Action::Report)
    );
    assert_eq!(
        next(Phase::RevealPause { slot: 18 }, Reply::Paused, s, 20, id(0)),
        (Phase::Revealing { slot: 19 }, Action::SendReveal { slot: 19 })
    );
    assert_eq!(
        next(Phase::Done, Reply::Start, s, 20, id(0)),
        (Phase::Failed, Action::Fail(Error::OutOfTurn))
    );
    assert_eq!(
        next(Phase::Revealing { slot: 3 }, Reply::RevealSent { ok: false }, s, 20, id(7)),
        (Phase::Failed, Action::Fail(Error::RevealBroadcastFailed { slot: 3, txid: id(7) }))
    );
}
