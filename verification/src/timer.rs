//! The timer record that is read out of the observed process, the pair of
//! snapshots kept between polls, and the edge-triggered classifier over it.

use vstd::prelude::*;
use crate::memory::{Address, PointerKind};
use crate::registry::{PathModel, PathRegistry};
use crate::snapshot::SnapshotPair;

verus! {

/// Bytes of marker text that precede the record at a signature match.
pub const HEADER_LEN: u64 = 16;

/// Bytes of the record itself: three 32-bit words.
pub const RECORD_LEN: usize = 12;

/// What the observed timer asks for.
#[derive(Debug, Copy, Clone, PartialEq, Eq, Structural)]
pub enum TimerAction {
    DoNothing,
    Start,
    Restart,
    Split,
    End,
    Reset,
    Pause,
    Resume,
}

impl TimerAction {
    /// The three-bit code of this action.
    pub open spec fn spec_code(self) -> u32 {
        match self {
            TimerAction::DoNothing => 0,
            TimerAction::Start => 1,
            TimerAction::Restart => 2,
            TimerAction::Split => 3,
            TimerAction::End => 4,
            TimerAction::Reset => 5,
            TimerAction::Pause => 6,
            TimerAction::Resume => 7,
        }
    }

    /// The action that a three-bit code stands for.
    pub open spec fn of_code(code: u32) -> TimerAction {
        if code == 0 {
            TimerAction::DoNothing
        } else if code == 1 {
            TimerAction::Start
        } else if code == 2 {
            TimerAction::Restart
        } else if code == 3 {
            TimerAction::Split
        } else if code == 4 {
            TimerAction::End
        } else if code == 5 {
            TimerAction::Reset
        } else if code == 6 {
            TimerAction::Pause
        } else {
            TimerAction::Resume
        }
    }

    /// The three-bit code of this action.
    pub fn code(self) -> (c: u32)
        ensures
            c == self.spec_code(),
            c <= 7,
    {
        match self {
            TimerAction::DoNothing => 0,
            TimerAction::Start => 1,
            TimerAction::Restart => 2,
            TimerAction::Split => 3,
            TimerAction::End => 4,
            TimerAction::Reset => 5,
            TimerAction::Pause => 6,
            TimerAction::Resume => 7,
        }
    }

    /// Whether a change to this action starts the timer.
    pub open spec fn starts(self) -> bool {
        self == TimerAction::Start || self == TimerAction::Restart || self == TimerAction::Resume
    }

    /// Whether a change to this action resets the timer.
    pub open spec fn resets(self) -> bool {
        self == TimerAction::Reset || self == TimerAction::Restart
    }

    /// Whether a change to this action splits.
    pub open spec fn splits(self) -> bool {
        self == TimerAction::Split || self == TimerAction::End
    }
}

/// The packed state word of the timer: the action code in the low three bits,
/// the pause flag in the top bit.
#[derive(Debug, Copy, Clone, PartialEq, Eq, Structural)]
pub struct TimerState(pub u32);

impl TimerState {
    pub open spec fn spec_action(self) -> TimerAction {
        TimerAction::of_code(self.0 & 7)
    }

    pub open spec fn spec_paused(self) -> bool {
        self.0 & 0x8000_0000 != 0
    }

    /// The action held in the low three bits of the word.
    pub fn action(&self) -> (a: TimerAction)
        ensures
            a == self.spec_action(),
            a.spec_code() == self.0 & 7,
    {
        let word: u32 = self.0;
        let code: u32 = word & 7;
        assert(word & 7 <= 7) by (bit_vector);
        if code == 0 {
            TimerAction::DoNothing
        } else if code == 1 {
            TimerAction::Start
        } else if code == 2 {
            TimerAction::Restart
        } else if code == 3 {
            TimerAction::Split
        } else if code == 4 {
            TimerAction::End
        } else if code == 5 {
            TimerAction::Reset
        } else if code == 6 {
            TimerAction::Pause
        } else {
            TimerAction::Resume
        }
    }

    /// The pause flag held in the top bit of the word.
    pub fn paused(&self) -> (p: bool)
        ensures
            p == self.spec_paused(),
    {
        (self.0 & 0x8000_0000) != 0
    }
}

/// One copy of the timer record. `ipt_bits` is the bit pattern of the
/// single-precision seconds-per-tick value, kept as it was read.
#[derive(Debug, Copy, Clone, PartialEq, Eq, Structural)]
pub struct SARInterface {
    pub total: i32,
    pub ipt_bits: u32,
    pub action: TimerState,
}

impl SARInterface {
    /// The record before anything was read: no ticks, a zero rate, no action.
    pub open spec fn spec_zeroed() -> SARInterface {
        SARInterface { total: 0, ipt_bits: 0, action: TimerState(0) }
    }

    /// The record before anything was read.
    pub fn zeroed() -> (r: SARInterface)
        ensures
            r == Self::spec_zeroed(),
    {
        SARInterface { total: 0, ipt_bits: 0, action: TimerState(0) }
    }
}

/// What the host has to do next for a poll.
#[derive(Debug, Copy, Clone, PartialEq, Eq, Structural)]
pub enum PollAction {
    /// The record's place is unknown: scan for the signature.
    Scan,
    /// Copy `len` bytes from `address`.
    Read { address: Address, len: usize },
}

/// All that is kept between polls: where the record lies, if known, and the
/// two latest snapshots of it.
#[derive(Debug, Copy, Clone, PartialEq, Eq)]
pub struct PortalState {
    pub sar_base: Option<Address>,
    pub pair: SnapshotPair<SARInterface>,
}

/// The name of the observed process.
pub fn process_name() -> (name: &'static str)
    ensures
        name@ == "hl2.exe"@,
{
    "hl2.exe"
}

/// The byte pattern that marks the record: sixteen bytes of start marker,
/// three wildcard words, fourteen bytes of end marker.
pub fn interface_signature() -> (pattern: &'static str)
    ensures
        pattern@
            == "53 41 52 5F 54 49 4D 45 52 5F 53 54 41 52 54 00?? ?? ?? ???? ?? ?? ???? ?? ?? ??53 41 52 5F 54 49 4D 45 52 5F 45 4E 44 00"@,
{
    "53 41 52 5F 54 49 4D 45 52 5F 53 54 41 52 54 00?? ?? ?? ???? ?? ?? ???? ?? ?? ??53 41 52 5F 54 49 4D 45 52 5F 45 4E 44 00"
}

/// Where the record lies, given what a scan for the signature found: past the
/// start marker. A match so close to the end of the address space that the
/// record cannot follow it counts as no match.
pub open spec fn spec_find_interface(found: Option<Address>) -> Option<Address> {
    match found {
        Some(a) => if a.0 <= u64::MAX - HEADER_LEN {
            Some(Address((a.0 + HEADER_LEN) as u64))
        } else {
            None
        },
        None => None,
    }
}

/// Where the record lies, given what a scan for the signature found.
pub fn find_interface(found: Option<Address>) -> (base: Option<Address>)
    ensures
        base == spec_find_interface(found),
{
    match found {
        Some(a) => match a.0.checked_add(HEADER_LEN) {
            Some(sum) => Some(Address(sum)),
            None => None,
        },
        None => None,
    }
}

/// Announces the observed process to a registry: one path to its first word,
/// which keeps the host watching the process.
pub fn configure(registry: &mut PathRegistry) -> (id: usize)
    requires
        old(registry).wf(),
    ensures
        final(registry).wf(),
        id == old(registry)@.len(),
        final(registry)@ == old(registry)@.push(
            Some(PathModel { module: "hl2.exe"@, offsets: seq![0i64], kind: PointerKind::U32 }),
        ),
{
    let mut offsets: Vec<i64> = Vec::new();
    offsets.push(0);
    assert(offsets@ =~= seq![0i64]);
    registry.push_pointer_path(process_name(), offsets.as_slice(), PointerKind::U32)
}

impl PortalState {
    /// The state before the first poll and after a disconnect.
    pub open spec fn spec_new() -> PortalState {
        PortalState {
            sar_base: None,
            pair: SnapshotPair {
                current: SARInterface::spec_zeroed(),
                previous: SARInterface::spec_zeroed(),
            },
        }
    }

    /// The state once a scan's outcome is taken in: a known base stays, an
    /// unknown one becomes what the scan gives.
    pub open spec fn resolved(self, found: Option<Address>) -> PortalState {
        if self.sar_base is None {
            PortalState { sar_base: spec_find_interface(found), ..self }
        } else {
            self
        }
    }

    /// The state once a read's outcome is taken in: with a known base and a
    /// full record the pair advances, otherwise nothing changes.
    pub open spec fn updated(self, read: Result<SARInterface, ()>) -> PortalState {
        match read {
            Ok(val) => if self.sar_base is Some {
                PortalState { sar_base: self.sar_base, pair: self.pair.advanced(val) }
            } else {
                self
            },
            Err(_) => self,
        }
    }

    /// What the host has to do next.
    pub open spec fn spec_next_action(self) -> PollAction {
        match self.sar_base {
            None => PollAction::Scan,
            Some(base) => PollAction::Read { address: base, len: RECORD_LEN },
        }
    }

    /// Whether the action changed between the two snapshots.
    pub open spec fn action_changed(self) -> bool {
        self.pair.current.action.spec_action() != self.pair.previous.action.spec_action()
    }

    pub open spec fn spec_should_start(self) -> bool {
        self.action_changed() && self.pair.current.action.spec_action().starts()
    }

    pub open spec fn spec_should_reset(self) -> bool {
        self.action_changed() && self.pair.current.action.spec_action().resets()
    }

    pub open spec fn spec_should_split(self) -> bool {
        self.action_changed() && self.pair.current.action.spec_action().splits()
    }

    /// The state after a run of polls on a resolved record, the oldest first.
    pub open spec fn after_reads(self, reads: Seq<Result<SARInterface, ()>>) -> PortalState
        decreases reads.len(),
    {
        if reads.len() == 0 {
            self
        } else {
            self.after_reads(reads.drop_last()).updated(reads.last())
        }
    }

    /// The state before the first poll.
    pub fn new() -> (s: PortalState)
        ensures
            s == Self::spec_new(),
    {
        PortalState { sar_base: None, pair: SnapshotPair::new(SARInterface::zeroed()) }
    }

    /// What the host has to do next: scan while the record's place is
    /// unknown, read the record once it is known.
    pub fn next_action(&self) -> (a: PollAction)
        ensures
            a == self.spec_next_action(),
    {
        match self.sar_base {
            None => PollAction::Scan,
            Some(base) => PollAction::Read { address: base, len: RECORD_LEN },
        }
    }

    /// Takes in what a scan found. Only an unknown base is resolved; the
    /// snapshots are never touched.
    pub fn state(&mut self, found: Option<Address>)
        ensures
            *final(self) == old(self).resolved(found),
            final(self).pair.current == old(self).pair.current,
            final(self).pair.previous == old(self).pair.previous,
    {
        if self.sar_base.is_none() {
            self.sar_base = find_interface(found);
        }
    }

    /// Takes in what a read of the record gave. A full record, read at a known
    /// base, becomes the current snapshot and the one before it the previous;
    /// a failed read changes nothing.
    pub fn update(&mut self, read: Result<SARInterface, ()>)
        ensures
            *final(self) == old(self).updated(read),
            read is Err ==> *final(self) == *old(self),
            final(self).sar_base == old(self).sar_base,
    {
        if self.sar_base.is_some() {
            if let Ok(val) = read {
                self.pair.advance(val);
            }
        }
    }

    /// Forgets the record's place and both snapshots.
    pub fn disconnected(&mut self)
        ensures
            *final(self) == Self::spec_new(),
            final(self).spec_next_action() == PollAction::Scan,
    {
        *self = PortalState::new();
    }

    /// Whether the observed timer is loading: it always counts as loading, so
    /// that only the reported time moves the clock.
    pub fn is_loading(&self) -> (b: bool)
        ensures
            b,
    {
        true
    }

    /// The two factors of the elapsed time: the ticks counted and the bit
    /// pattern of the seconds per tick, both of the current snapshot alone.
    pub fn game_time(&self) -> (factors: (i32, u32))
        ensures
            factors == (self.pair.current.total, self.pair.current.ipt_bits),
    {
        (self.pair.current.total, self.pair.current.ipt_bits)
    }

    /// Whether the timer is to start: the action changed, to `Start`,
    /// `Restart` or `Resume`.
    pub fn should_start(&self) -> (fire: bool)
        ensures
            fire == self.spec_should_start(),
    {
        let now = self.pair.current.action.action();
        let before = self.pair.previous.action.action();
        if now.code() == before.code() {
            false
        } else {
            match now {
                TimerAction::Start => true,
                TimerAction::Restart => true,
                TimerAction::Resume => true,
                _ => false,
            }
        }
    }

    /// Whether the timer is to reset: the action changed, to `Reset` or
    /// `Restart`.
    pub fn should_reset(&self) -> (fire: bool)
        ensures
            fire == self.spec_should_reset(),
    {
        let now = self.pair.current.action.action();
        let before = self.pair.previous.action.action();
        if now.code() == before.code() {
            false
        } else {
            match now {
                TimerAction::Reset => true,
                TimerAction::Restart => true,
                _ => false,
            }
        }
    }

    /// Whether the timer is to split: the action changed, to `Split` or `End`.
    pub fn should_split(&self) -> (fire: bool)
        ensures
            fire == self.spec_should_split(),
    {
        let now = self.pair.current.action.action();
        let before = self.pair.previous.action.action();
        if now.code() == before.code() {
            false
        } else {
            match now {
                TimerAction::Split => true,
                TimerAction::End => true,
                _ => false,
            }
        }
    }
}

/// Every state word holds one of the eight actions, the one whose code its
/// low three bits give; and every action is held by the word made of its code.
pub proof fn lemma_action_codes(word: u32)
    ensures
        TimerState(word).spec_action().spec_code() == word & 7,
        word & 7 <= 7,
        forall|a: TimerAction| #[trigger] TimerAction::of_code(a.spec_code()) == a,
        forall|a: TimerAction| #[trigger] TimerState(a.spec_code()).spec_action() == a,
{
    assert(word & 7 <= 7) by (bit_vector);
    assert(forall|c: u32| c <= 7 ==> #[trigger] (c & 7) == c) by (bit_vector);
    assert forall|a: TimerAction| #[trigger] TimerState(a.spec_code()).spec_action() == a by {
        assert(a.spec_code() <= 7);
        assert(a.spec_code() & 7 == a.spec_code());
    }
}

/// Polls that bring nothing new fire nothing: once both snapshots hold one
/// record, any run of polls that each fail or read that record again leaves
/// both snapshots as they are, and no predicate holds.
pub proof fn lemma_unchanged_polls_fire_nothing(
    s: PortalState,
    reads: Seq<Result<SARInterface, ()>>,
)
    requires
        s.pair.previous == s.pair.current,
        forall|i: int|
            0 <= i < reads.len() ==> reads[i] is Err || reads[i] == Ok::<SARInterface, ()>(
                s.pair.current,
            ),
    ensures
        s.after_reads(reads) == s,
        !s.after_reads(reads).spec_should_start(),
        !s.after_reads(reads).spec_should_reset(),
        !s.after_reads(reads).spec_should_split(),
    decreases reads.len(),
{
    if reads.len() > 0 {
        let front = reads.drop_last();
        assert forall|i: int| 0 <= i < front.len() implies front[i] is Err || front[i] == Ok::<
            SARInterface,
            (),
        >(s.pair.current) by {
            assert(front[i] == reads[i]);
        }
        lemma_unchanged_polls_fire_nothing(s, front);
    }
}

/// While the action stays what it is, nothing fires, whatever else in the
/// record moves: once both snapshots hold one action, any run of polls that
/// each fail or read that action again leaves no predicate true.
pub proof fn lemma_steady_action_fires_nothing(
    s: PortalState,
    reads: Seq<Result<SARInterface, ()>>,
)
    requires
        s.pair.previous.action.spec_action() == s.pair.current.action.spec_action(),
        forall|i: int|
            0 <= i < reads.len() ==> reads[i] is Err || (
            #[trigger] reads[i]).unwrap().action.spec_action()
                == s.pair.current.action.spec_action(),
    ensures
        s.after_reads(reads).pair.current.action.spec_action()
            == s.pair.current.action.spec_action(),
        s.after_reads(reads).pair.previous.action.spec_action()
            == s.pair.current.action.spec_action(),
        !s.after_reads(reads).spec_should_start(),
        !s.after_reads(reads).spec_should_reset(),
        !s.after_reads(reads).spec_should_split(),
    decreases reads.len(),
{
    if reads.len() > 0 {
        let front = reads.drop_last();
        assert forall|i: int| 0 <= i < front.len() implies front[i] is Err || (
        #[trigger] front[i]).unwrap().action.spec_action()
            == s.pair.current.action.spec_action() by {
            assert(front[i] == reads[i]);
        }
        lemma_steady_action_fires_nothing(s, front);
        assert(reads.last() == reads[reads.len() - 1]);
    }
}

/// Reading one record twice in a row fires nothing after the second read,
/// whatever was held before.
pub proof fn lemma_second_equal_read_is_silent(s: PortalState, val: SARInterface)
    requires
        s.sar_base is Some,
    ensures
        s.updated(Ok(val)).updated(Ok(val)).pair.previous == val,
        s.updated(Ok(val)).updated(Ok(val)).pair.current == val,
        !s.updated(Ok(val)).updated(Ok(val)).spec_should_start(),
        !s.updated(Ok(val)).updated(Ok(val)).spec_should_reset(),
        !s.updated(Ok(val)).updated(Ok(val)).spec_should_split(),
{
}

/// Before anything was read nothing fires, and polls on which the scan finds
/// nothing leave it so.
pub proof fn lemma_unresolved_is_silent(reads: Seq<Result<SARInterface, ()>>)
    ensures
        PortalState::spec_new().after_reads(reads) == PortalState::spec_new(),
        PortalState::spec_new().resolved(None) == PortalState::spec_new(),
        !PortalState::spec_new().spec_should_start(),
        !PortalState::spec_new().spec_should_reset(),
        !PortalState::spec_new().spec_should_split(),
    decreases reads.len(),
{
    if reads.len() > 0 {
        lemma_unresolved_is_silent(reads.drop_last());
    }
}

/// The classifier is edge-triggered: with equal actions in both snapshots
/// nothing fires; with different ones, the current action alone decides, and
/// `DoNothing` and `Pause` fire nothing.
pub proof fn lemma_edge_triggered(s: PortalState)
    ensures
        s.pair.current.action.spec_action() == s.pair.previous.action.spec_action()
            ==> !s.spec_should_start() && !s.spec_should_reset() && !s.spec_should_split(),
        s.pair.current.action.spec_action() != s.pair.previous.action.spec_action() ==> {
            let now = s.pair.current.action.spec_action();
            &&& s.spec_should_start() == (now == TimerAction::Start || now == TimerAction::Restart
                || now == TimerAction::Resume)
            &&& s.spec_should_reset() == (now == TimerAction::Reset || now == TimerAction::Restart)
            &&& s.spec_should_split() == (now == TimerAction::Split || now == TimerAction::End)
            &&& (now == TimerAction::DoNothing || now == TimerAction::Pause)
                ==> !s.spec_should_start() && !s.spec_should_reset() && !s.spec_should_split()
        },
        (s.pair.current.action.0 & 7) == (s.pair.previous.action.0 & 7)
            <==> s.pair.current.action.spec_action() == s.pair.previous.action.spec_action(),
{
    lemma_action_codes(s.pair.current.action.0);
    lemma_action_codes(s.pair.previous.action.0);
}

/// A change to `Restart` both starts and resets.
pub proof fn lemma_restart_fires_start_and_reset(s: PortalState)
    requires
        s.pair.current.action.spec_action() == TimerAction::Restart,
        s.pair.previous.action.spec_action() != TimerAction::Restart,
    ensures
        s.spec_should_start(),
        s.spec_should_reset(),
        !s.spec_should_split(),
{
}

/// A failed read leaves the pair, and with it every predicate, as it was.
pub proof fn lemma_failed_read_keeps_snapshots(s: PortalState)
    ensures
        s.updated(Err(())) == s,
        s.updated(Err(())).spec_should_start() == s.spec_should_start(),
        s.updated(Err(())).spec_should_reset() == s.spec_should_reset(),
        s.updated(Err(())).spec_should_split() == s.spec_should_split(),
{
}

/// After a disconnect the next thing asked of the host is a scan, whatever
/// base was known before, and no read is taken in until a scan has placed the
/// record again.
pub proof fn lemma_disconnect_forces_scan(read: Result<SARInterface, ()>, found: Option<Address>)
    ensures
        PortalState::spec_new().spec_next_action() == PollAction::Scan,
        PortalState::spec_new().updated(read) == PortalState::spec_new(),
        PortalState::spec_new().resolved(found).sar_base == spec_find_interface(found),
{
}

} // verus!
