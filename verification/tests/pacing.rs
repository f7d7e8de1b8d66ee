use rmf::content::{Content, InnerContent};
use rmf::pacing::{Anchor, Emission, PlaybackSession, MAX_QUEUE_SIZE};
use rmf::result::{Error, Result};
use rmf::service::{ContentCursorTrait, ContentSeekFlag, Seek};
use rmf::timestamp::Timestamp;

#[derive(Debug, Clone, PartialEq)]
struct Block(u32);

impl InnerContent for Block {}

/// Yields one unit per entry of `offsets_ms`, then the end of the stream.
struct Synthetic {
    offsets_ms: Vec<i64>,
    next: usize,
    fail_at: Option<usize>,
    refuse_seek: bool,
    ended: bool,
    sought: Option<Seek>,
    reads: usize,
}

impl Synthetic {
    fn new(offsets_ms: Vec<i64>) -> Self {
        Synthetic {
            offsets_ms,
            next: 0,
            fail_at: None,
            refuse_seek: false,
            ended: false,
            sought: None,
            reads: 0,
        }
    }
}

impl ContentCursorTrait for Synthetic {
    type Item = Block;

    fn wf(&self) -> bool {
        self.next <= self.offsets_ms.len()
    }

    fn at_end(&self) -> bool {
        self.ended
    }

    fn last_seek(&self) -> Option<Seek> {
        self.sought
    }

    fn read(&mut self) -> Result<Option<Content<Block>>> {
        self.reads += 1;
        if self.fail_at == Some(self.next) {
            return Err(Error::new_image(String::from("broken frame")));
        }
        self.sought = None;
        if self.next < self.offsets_ms.len() {
            let ms = self.offsets_ms[self.next];
            let unit = Content::new(
                Block(self.next as u32),
                Timestamp::from_milliseconds(ms),
                Timestamp::from_milliseconds(100),
            );
            self.next += 1;
            Ok(Some(unit))
        } else {
            self.ended = true;
            Ok(None)
        }
    }

    fn seek(&mut self, timestamp: Timestamp, flag: Option<ContentSeekFlag>) -> Result<()> {
        if self.refuse_seek {
            return Err(Error::new_input(String::from("cannot seek")));
        }
        let us = timestamp.as_microseconds();
        self.next = self
            .offsets_ms
            .iter()
            .position(|o| *o * 1000 >= us)
            .unwrap_or(self.offsets_ms.len());
        self.ended = false;
        self.sought = Some((timestamp, flag));
        Ok(())
    }
}

#[test]
fn three_units_are_due_one_hundred_milliseconds_apart() {
    let mut cursor = Synthetic::new(vec![0, 100, 200]);
    let mut session = PlaybackSession::new();
    let now = Timestamp::from_microseconds(5_000_000);
    let mut due = Vec::new();
    loop {
        session.fill(&mut cursor).unwrap();
        match session.emit(now) {
            Emission::Unit { content, target_instant } => {
                due.push((content.item().clone(), target_instant.as_microseconds()))
            }
            Emission::End => break,
            Emission::Idle => panic!("idle before the end"),
        }
    }
    assert_eq!(
        due,
        vec![(Block(0), 5_000_000), (Block(1), 5_100_000), (Block(2), 5_200_000)]
    );
    assert_eq!(
        session.anchor(),
        Some(Anchor {
            base_instant: Timestamp::from_microseconds(5_000_000),
            base_offset: Timestamp::from_microseconds(0)
        })
    );
    assert!(session.finished());
    assert!(matches!(session.emit(now), Emission::Idle));
    assert!(MAX_QUEUE_SIZE == 10);
}

fn units(session: &mut PlaybackSession<Block>, now: Timestamp) -> Vec<(u32, i64)> {
    let mut out = Vec::new();
    loop {
        match session.emit(now) {
            Emission::Unit { content, target_instant } => {
                out.push((content.item().0, target_instant.as_microseconds()))
            }
            _ => return out,
        }
    }
}

#[test]
fn a_fresh_session_is_empty() {
    let session: PlaybackSession<Block> = PlaybackSession::new();
    assert_eq!(session.len(), 0);
    assert_eq!(session.anchor(), None);
    assert!(!session.source_ended());
    assert!(!session.finished());
    assert!(session.wants_more());
}

#[test]
fn the_queue_never_holds_more_than_its_bound() {
    let offsets: Vec<i64> = (0..35).map(|i| i * 10).collect();
    let mut cursor = Synthetic::new(offsets);
    let mut session = PlaybackSession::new();
    let now = Timestamp::from_microseconds(0);
    let mut emitted = 0;
    loop {
        session.fill(&mut cursor).unwrap();
        assert!(session.len() <= MAX_QUEUE_SIZE);
        if emitted + MAX_QUEUE_SIZE <= 35 {
            assert_eq!(session.len(), MAX_QUEUE_SIZE);
            assert!(!session.wants_more());
        }
        match session.emit(now) {
            Emission::Unit { .. } => emitted += 1,
            Emission::End => break,
            Emission::Idle => panic!("idle before the end"),
        }
        assert!(session.len() < MAX_QUEUE_SIZE);
    }
    assert_eq!(emitted, 35);
}

#[test]
fn fill_stops_at_the_bound_without_reading_more() {
    let offsets: Vec<i64> = (0..35).collect();
    let mut cursor = Synthetic::new(offsets);
    let mut session = PlaybackSession::new();
    session.fill(&mut cursor).unwrap();
    assert_eq!(cursor.reads, 10);
    session.fill(&mut cursor).unwrap();
    assert_eq!(cursor.reads, 10);
    assert_eq!(session.len(), 10);
}

#[test]
fn units_leave_in_the_order_they_were_read() {
    let mut cursor = Synthetic::new(vec![0, 10, 20, 30, 40, 50, 60, 70, 80, 90, 100, 110, 120]);
    let mut session = PlaybackSession::new();
    let now = Timestamp::from_microseconds(1_000);
    let mut seen = Vec::new();
    loop {
        session.fill(&mut cursor).unwrap();
        match session.emit(now) {
            Emission::Unit { content, target_instant } => {
                seen.push((content.item().0, content.offset().as_milliseconds(), target_instant))
            }
            Emission::End => break,
            Emission::Idle => panic!("idle before the end"),
        }
    }
    assert_eq!(seen.len(), 13);
    for (i, (index, ms, target)) in seen.iter().enumerate() {
        assert_eq!(*index as usize, i);
        assert_eq!(*ms, i as i64 * 10);
        assert_eq!(target.as_microseconds(), 1_000 + i as i64 * 10_000);
    }
    for pair in seen.windows(2) {
        assert!(pair[0].1 <= pair[1].1);
        assert!(pair[0].2 <= pair[1].2);
    }
}

#[test]
fn the_first_unit_fixes_the_anchor_for_good() {
    let mut cursor = Synthetic::new(vec![250, 300, 450]);
    let mut session = PlaybackSession::new();
    session.fill(&mut cursor).unwrap();
    assert_eq!(session.anchor(), None);
    let first = session.emit(Timestamp::from_microseconds(9_000_000));
    let anchor = Anchor {
        base_instant: Timestamp::from_microseconds(9_000_000),
        base_offset: Timestamp::from_milliseconds(250),
    };
    assert_eq!(session.anchor(), Some(anchor));
    match first {
        Emission::Unit { target_instant, .. } => {
            assert_eq!(target_instant, Timestamp::from_microseconds(9_000_000))
        }
        _ => panic!("no unit"),
    }
    match session.emit(Timestamp::from_microseconds(77_000_000)) {
        Emission::Unit { target_instant, .. } => {
            assert_eq!(target_instant, Timestamp::from_microseconds(9_050_000))
        }
        _ => panic!("no unit"),
    }
    assert_eq!(session.anchor(), Some(anchor));
    match session.emit(Timestamp::from_microseconds(1)) {
        Emission::Unit { target_instant, .. } => {
            assert_eq!(target_instant, Timestamp::from_microseconds(9_200_000))
        }
        _ => panic!("no unit"),
    }
    assert_eq!(session.anchor(), Some(anchor));
}

#[test]
fn a_unit_presented_before_the_anchor_is_due_before_it() {
    let mut cursor = Synthetic::new(vec![500, 400]);
    let mut session = PlaybackSession::new();
    session.fill(&mut cursor).unwrap();
    assert_eq!(
        units(&mut session, Timestamp::from_microseconds(2_000_000)),
        vec![(0, 2_000_000), (1, 1_900_000)]
    );
}

#[test]
fn the_end_marker_comes_once() {
    let mut cursor = Synthetic::new(vec![0]);
    let mut session = PlaybackSession::new();
    let now = Timestamp::from_microseconds(0);
    session.fill(&mut cursor).unwrap();
    assert!(session.source_ended());
    assert!(matches!(session.emit(now), Emission::Unit { .. }));
    assert!(!session.finished());
    assert!(matches!(session.emit(now), Emission::End));
    assert!(session.finished());
    assert!(matches!(session.emit(now), Emission::Idle));
    assert!(matches!(session.emit(now), Emission::Idle));
}

#[test]
fn an_empty_stream_ends_at_once() {
    let mut cursor = Synthetic::new(vec![]);
    let mut session = PlaybackSession::new();
    session.fill(&mut cursor).unwrap();
    assert!(matches!(session.emit(Timestamp::from_microseconds(5)), Emission::End));
    assert_eq!(session.anchor(), None);
}

#[test]
fn emit_before_any_fill_is_idle() {
    let mut session: PlaybackSession<Block> = PlaybackSession::new();
    assert!(matches!(session.emit(Timestamp::from_microseconds(5)), Emission::Idle));
    assert_eq!(session.anchor(), None);
    assert!(!session.finished());
}

#[test]
fn the_source_is_not_read_again_after_its_end() {
    let mut cursor = Synthetic::new(vec![0, 1]);
    let mut session = PlaybackSession::new();
    session.fill(&mut cursor).unwrap();
    assert_eq!(cursor.reads, 3);
    session.fill(&mut cursor).unwrap();
    assert_eq!(cursor.reads, 3);
}

#[test]
fn a_read_fault_ends_the_fill_and_keeps_what_was_read() {
    let mut cursor = Synthetic::new(vec![0, 100, 200, 300]);
    cursor.fail_at = Some(2);
    let mut session = PlaybackSession::new();
    assert_eq!(
        session.fill(&mut cursor),
        Err(Error::Image(String::from("broken frame")))
    );
    assert_eq!(session.len(), 2);
    assert!(!session.source_ended());
    assert_eq!(
        units(&mut session, Timestamp::from_microseconds(0)),
        vec![(0, 0), (1, 100_000)]
    );
    assert!(matches!(session.emit(Timestamp::from_microseconds(0)), Emission::Idle));
}

#[test]
fn accept_takes_each_outcome_of_a_read() {
    let mut session: PlaybackSession<Block> = PlaybackSession::new();
    let unit = Content::new(Block(7), Timestamp::from_seconds(1), Timestamp::from_seconds(1));
    assert_eq!(session.accept(Ok(Some(unit))), Ok(()));
    assert_eq!(session.len(), 1);
    assert_eq!(
        session.accept(Err(Error::new_audio(String::from("noise")))),
        Err(Error::Audio(String::from("noise")))
    );
    assert_eq!(session.len(), 1);
    assert!(!session.source_ended());
    assert_eq!(session.accept(Ok(None)), Ok(()));
    assert_eq!(session.len(), 1);
    assert!(session.source_ended());
    assert!(!session.wants_more());
}

#[test]
fn a_seek_starts_a_new_session() {
    let mut cursor = Synthetic::new(vec![0, 100, 200, 300, 400]);
    let mut session = PlaybackSession::new();
    session.fill(&mut cursor).unwrap();
    assert!(matches!(session.emit(Timestamp::from_microseconds(50)), Emission::Unit { .. }));
    assert_eq!(session.len(), 4);
    session.seek(&mut cursor, Timestamp::from_milliseconds(250), None).unwrap();
    assert_eq!(session.len(), 0);
    assert_eq!(session.anchor(), None);
    assert!(!session.source_ended());
    session.fill(&mut cursor).unwrap();
    assert_eq!(
        units(&mut session, Timestamp::from_microseconds(1_000)),
        vec![(3, 1_000), (4, 101_000)]
    );
}

#[test]
fn after_a_seek_the_first_unit_is_not_before_the_target() {
    for target_ms in [0, 1, 99, 100, 101, 399, 400] {
        let mut cursor = Synthetic::new(vec![0, 100, 200, 300, 400]);
        let mut session = PlaybackSession::new();
        session.seek(&mut cursor, Timestamp::from_milliseconds(target_ms), None).unwrap();
        session.fill(&mut cursor).unwrap();
        match session.emit(Timestamp::from_microseconds(0)) {
            Emission::Unit { content, .. } => {
                assert!(content.offset() >= Timestamp::from_milliseconds(target_ms))
            }
            _ => panic!("no unit after the seek"),
        }
    }
}

#[test]
fn a_refused_seek_leaves_the_session_as_it_was() {
    let mut cursor = Synthetic::new(vec![0, 100, 200]);
    let mut session = PlaybackSession::new();
    session.fill(&mut cursor).unwrap();
    assert!(matches!(session.emit(Timestamp::from_microseconds(50)), Emission::Unit { .. }));
    let anchor = session.anchor();
    cursor.refuse_seek = true;
    assert_eq!(
        session.seek(&mut cursor, Timestamp::from_milliseconds(100), None),
        Err(Error::Input(String::from("cannot seek")))
    );
    assert_eq!(session.len(), 2);
    assert_eq!(session.anchor(), anchor);
    assert!(session.source_ended());
}

#[test]
fn restart_forgets_everything() {
    let mut cursor = Synthetic::new(vec![0, 100]);
    let mut session = PlaybackSession::new();
    session.fill(&mut cursor).unwrap();
    assert!(matches!(session.emit(Timestamp::from_microseconds(50)), Emission::Unit { .. }));
    session.restart();
    assert_eq!(session.len(), 0);
    assert_eq!(session.anchor(), None);
    assert!(!session.source_ended());
    assert!(!session.finished());
}

#[test]
fn target_instant_adds_the_elapsed_stream_time_to_the_base() {
    let anchor = Anchor {
        base_instant: Timestamp::from_microseconds(1_000),
        base_offset: Timestamp::from_microseconds(300),
    };
    assert_eq!(anchor.target_instant(Timestamp::from_microseconds(300)).as_microseconds(), 1_000);
    assert_eq!(anchor.target_instant(Timestamp::from_microseconds(450)).as_microseconds(), 1_150);
    assert_eq!(anchor.target_instant(Timestamp::from_microseconds(0)).as_microseconds(), 700);
    assert_eq!(anchor.target_instant(Timestamp::from_microseconds(-700)).as_microseconds(), 0);
}

#[test]
fn target_instant_stops_at_the_ends_of_the_clock() {
    let late = Anchor {
        base_instant: Timestamp::from_microseconds(i64::MAX - 5),
        base_offset: Timestamp::from_microseconds(0),
    };
    assert_eq!(late.target_instant(Timestamp::from_microseconds(5)).as_microseconds(), i64::MAX);
    assert_eq!(late.target_instant(Timestamp::from_microseconds(6)).as_microseconds(), i64::MAX);
    assert_eq!(
        late.target_instant(Timestamp::from_microseconds(i64::MAX)).as_microseconds(),
        i64::MAX
    );
    let early = Anchor {
        base_instant: Timestamp::from_microseconds(i64::MIN + 5),
        base_offset: Timestamp::from_microseconds(0),
    };
    assert_eq!(early.target_instant(Timestamp::from_microseconds(-6)).as_microseconds(), i64::MIN);
    let wide = Anchor {
        base_instant: Timestamp::from_microseconds(0),
        base_offset: Timestamp::from_microseconds(i64::MIN),
    };
    assert_eq!(wide.target_instant(Timestamp::from_microseconds(i64::MAX)).as_microseconds(), i64::MAX);
    assert_eq!(
        wide.target_instant(Timestamp::from_microseconds(i64::MIN + 9)).as_microseconds(),
        9
    );
}

#[test]
fn the_end_of_a_stream_is_reported_again_and_again() {
    let mut cursor = Synthetic::new(vec![0]);
    assert!(matches!(cursor.read(), Ok(Some(_))));
    assert!(!cursor.at_end());
    assert_eq!(cursor.read().map(|u| u.is_none()), Ok(true));
    assert!(cursor.at_end());
    assert_eq!(cursor.read().map(|u| u.is_none()), Ok(true));
    assert!(cursor.wf());
    assert_eq!(cursor.last_seek(), None);
}

#[test]
fn settle_takes_each_outcome_of_a_move() {
    let mut cursor = Synthetic::new(vec![0, 100, 200]);
    let mut session = PlaybackSession::new();
    session.fill(&mut cursor).unwrap();
    assert!(matches!(session.emit(Timestamp::from_microseconds(50)), Emission::Unit { .. }));
    let anchor = session.anchor();
    assert_eq!(
        session.settle(Err(Error::new_input(String::from("no")))),
        Err(Error::Input(String::from("no")))
    );
    assert_eq!(session.len(), 2);
    assert_eq!(session.anchor(), anchor);
    assert!(session.source_ended());
    assert_eq!(session.settle(Ok(())), Ok(()));
    assert_eq!(session.len(), 0);
    assert_eq!(session.anchor(), None);
    assert!(!session.source_ended());
    assert!(!session.finished());
}
