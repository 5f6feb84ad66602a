//! One command exchange with the sensor, as a state machine.
//!
//! An exchange writes a frame, waits the time the command needs, and then
//! reads zero or more words, each as its own three-byte read (two data bytes
//! and a CRC-8 byte). The bus work is done by the caller: `step` takes what
//! came of the last bus operation and says which one to perform next.
use vstd::prelude::*;
use crate::{Command, Error};
use crate::crc::{check_word, crc8_spec, word_is_valid};
use crate::frame::{command_frame, command_frame_with_args, frame_of, MAX_ARGS};

verus! {

/// Where an exchange stands.
#[derive(Debug, Copy, Clone, PartialEq, Eq, Structural)]
pub enum Stage {
    /// Not started yet.
    Idle,
    /// The frame is being written.
    Writing,
    /// Waiting for the sensor to carry out the command.
    Waiting,
    /// Reading the reply word by word.
    Reading,
    /// All words read; the data is complete.
    Finished,
    /// The exchange ended with an error.
    Failed,
}

/// The bus operation the caller performs next.
#[derive(Debug, Copy, Clone, PartialEq, Eq, Structural)]
pub enum Action {
    /// Write the transaction's frame to the sensor at this address.
    Write(u8),
    /// Wait this many milliseconds.
    Delay(u32),
    /// Read three bytes (one word and its checksum) from the sensor at this
    /// address.
    Read(u8),
    /// Nothing more to do: the exchange has finished.
    Done,
}

/// What came of the last bus operation.
pub enum Event<E> {
    /// The caller begins the exchange.
    Start,
    /// The frame was written, or the bus reported an error.
    Written(Result<(), E>),
    /// The wait is over.
    Waited,
    /// A three-byte word was read, or the bus reported an error.
    Received(Result<[u8; 3], E>),
}

/// An exchange in progress.
pub struct Transaction {
    address: u8,
    frame: Vec<u8>,
    delay_ms: u32,
    data: Vec<u8>,
    received: usize,
    stage: Stage,
}

/// The abstract state of an exchange.
pub struct TransactionView {
    /// The sensor's I²C address.
    pub address: u8,
    /// The bytes written to the sensor.
    pub frame: Seq<u8>,
    /// The wait after the write.
    pub delay_ms: u32,
    /// The data buffer the reply words are stored in, two bytes per word.
    pub data: Seq<u8>,
    /// How many words have been read so far.
    pub received: nat,
    /// Where the exchange stands.
    pub stage: Stage,
}

impl TransactionView {
    /// The number of words read back: half the data buffer, rounded down.
    pub open spec fn words(self) -> nat {
        self.data.len() / 2
    }

    /// The consistency of the counters with the stage.
    pub open spec fn wf(self) -> bool {
        &&& self.received <= self.words()
        &&& (self.stage == Stage::Idle || self.stage == Stage::Writing || self.stage
            == Stage::Waiting) ==> self.received == 0
        &&& self.stage == Stage::Reading ==> self.received < self.words()
        &&& self.stage == Stage::Finished ==> self.received == self.words()
    }

    /// Whether `event` is what the exchange waits for in its stage.
    pub open spec fn accepts<E>(self, event: Event<E>) -> bool {
        match event {
            Event::Start => self.stage == Stage::Idle,
            Event::Written(_) => self.stage == Stage::Writing,
            Event::Waited => self.stage == Stage::Waiting,
            Event::Received(_) => self.stage == Stage::Reading,
        }
    }

    /// The same exchange in another stage.
    pub open spec fn in_stage(self, stage: Stage) -> TransactionView {
        TransactionView { stage, ..self }
    }

    /// The exchange after a word with a valid checksum was stored.
    pub open spec fn store_word(self, word: Seq<u8>) -> TransactionView {
        let k = self.received as int;
        let received = self.received + 1;
        TransactionView {
            data: self.data.update(2 * k, word[0]).update(2 * k + 1, word[1]),
            received,
            stage: if received == self.words() {
                Stage::Finished
            } else {
                Stage::Reading
            },
            ..self
        }
    }

    /// The next state of the exchange and the action (or error) it yields
    /// for `event`.
    pub open spec fn next<E>(self, event: Event<E>) -> (TransactionView, Result<Action, Error<E>>) {
        match event {
            Event::Start => (self.in_stage(Stage::Writing), Ok(Action::Write(self.address))),
            Event::Written(Ok(_)) => (self.in_stage(Stage::Waiting), Ok(Action::Delay(self.delay_ms))),
            Event::Written(Err(e)) => (self.in_stage(Stage::Failed), Err(Error::I2c(e))),
            Event::Waited => if self.words() == 0 {
                (self.in_stage(Stage::Finished), Ok(Action::Done))
            } else {
                (self.in_stage(Stage::Reading), Ok(Action::Read(self.address)))
            },
            Event::Received(Err(e)) => (self.in_stage(Stage::Failed), Err(Error::I2c(e))),
            Event::Received(Ok(word)) => if !word_is_valid(word@) {
                (self.in_stage(Stage::Failed), Err(Error::Crc))
            } else {
                let after = self.store_word(word@);
                (after, Ok(if after.stage == Stage::Finished { Action::Done } else { Action::Read(self.address) }))
            },
        }
    }
}

impl View for Transaction {
    type V = TransactionView;

    closed spec fn view(&self) -> TransactionView {
        TransactionView {
            address: self.address,
            frame: self.frame@,
            delay_ms: self.delay_ms,
            data: self.data@,
            received: self.received as nat,
            stage: self.stage,
        }
    }
}

/// `n` zero bytes.
fn zeros(n: usize) -> (v: Vec<u8>)
    ensures
        v@ == Seq::new(n as nat, |i: int| 0u8),
{
    let mut v: Vec<u8> = Vec::new();
    while v.len() < n
        invariant
            v@.len() <= n,
            forall|i: int| 0 <= i < v@.len() ==> v@[i] == 0u8,
        decreases n - v@.len(),
    {
        v.push(0u8);
    }
    assert(v@ =~= Seq::new(n as nat, |i: int| 0u8));
    v
}

impl Transaction {
    /// Writes commands without additional arguments: the exchange writes the
    /// command code, waits the command's delay and reads nothing.
    pub fn write_command(address: u8, cmd: Command) -> (t: Transaction)
        ensures
            t@.address == address,
            t@.frame == frame_of(cmd, seq![]),
            t@.delay_ms == cmd.delay_ms(),
            t@.data == Seq::<u8>::empty(),
            t@.received == 0,
            t@.stage == Stage::Idle,
            t@.wf(),
    {
        let (_code, delay) = cmd.as_tuple();
        Transaction {
            address,
            frame: command_frame(cmd),
            delay_ms: delay,
            data: Vec::new(),
            received: 0,
            stage: Stage::Idle,
        }
    }

    /// Writes commands with arguments: the exchange writes the command code
    /// and the argument words with their checksums, waits the command's delay
    /// and reads nothing.
    pub fn write_command_with_args(address: u8, cmd: Command, args: &[u8]) -> (t: Transaction)
        requires
            args@.len() % 2 == 0,
            args@.len() <= MAX_ARGS,
        ensures
            t@.address == address,
            t@.frame == frame_of(cmd, args@),
            t@.delay_ms == cmd.delay_ms(),
            t@.data == Seq::<u8>::empty(),
            t@.received == 0,
            t@.stage == Stage::Idle,
            t@.wf(),
    {
        let (_code, delay) = cmd.as_tuple();
        Transaction {
            address,
            frame: command_frame_with_args(cmd, args),
            delay_ms: delay,
            data: Vec::new(),
            received: 0,
            stage: Stage::Idle,
        }
    }

    /// After the write and the wait, reads `data_len / 2` words into a data
    /// buffer of `data_len` zero bytes.
    pub fn then_read_words_with_crc(self, data_len: usize) -> (t: Transaction)
        ensures
            t@.address == self@.address,
            t@.frame == self@.frame,
            t@.delay_ms == self@.delay_ms,
            t@.data == Seq::new(data_len as nat, |i: int| 0u8),
            t@.received == 0,
            t@.stage == Stage::Idle,
            t@.wf(),
    {
        Transaction {
            address: self.address,
            frame: self.frame,
            delay_ms: self.delay_ms,
            data: zeros(data_len),
            received: 0,
            stage: Stage::Idle,
        }
    }

    /// Command for reading values from the sensor: writes the command, waits
    /// its delay and reads `data_len / 2` words into `data_len` zero bytes.
    pub fn delayed_read_cmd(address: u8, cmd: Command, data_len: usize) -> (t: Transaction)
        ensures
            t@.address == address,
            t@.frame == frame_of(cmd, seq![]),
            t@.delay_ms == cmd.delay_ms(),
            t@.data == Seq::new(data_len as nat, |i: int| 0u8),
            t@.received == 0,
            t@.stage == Stage::Idle,
            t@.wf(),
    {
        Transaction::write_command(address, cmd).then_read_words_with_crc(data_len)
    }

    /// The bytes to write.
    pub fn frame(&self) -> (f: &[u8])
        ensures
            f@ == self@.frame,
    {
        self.frame.as_slice()
    }

    /// The data buffer: the words read so far, two bytes each, then zeros.
    pub fn data(&self) -> (d: &[u8])
        ensures
            d@ == self@.data,
    {
        self.data.as_slice()
    }

    /// Where the exchange stands.
    pub fn stage(&self) -> (s: Stage)
        ensures
            s == self@.stage,
    {
        self.stage
    }

    /// Whether `event` is what the exchange waits for.
    pub fn accepts<E>(&self, event: &Event<E>) -> (b: bool)
        ensures
            b == self@.accepts(*event),
    {
        match event {
            Event::Start => self.stage == Stage::Idle,
            Event::Written(_) => self.stage == Stage::Writing,
            Event::Waited => self.stage == Stage::Waiting,
            Event::Received(_) => self.stage == Stage::Reading,
        }
    }

    /// Advances the exchange by what came of the last bus operation and
    /// returns the next operation, or the error that ends the exchange.
    pub fn step<E>(&mut self, event: Event<E>) -> (r: Result<Action, Error<E>>)
        requires
            old(self)@.wf(),
            old(self)@.accepts(event),
        ensures
            (final(self)@, r) == old(self)@.next(event),
            final(self)@.wf(),
    {
        match event {
            Event::Start => {
                self.stage = Stage::Writing;
                Ok(Action::Write(self.address))
            },
            Event::Written(Ok(())) => {
                self.stage = Stage::Waiting;
                Ok(Action::Delay(self.delay_ms))
            },
            Event::Written(Err(e)) => {
                self.stage = Stage::Failed;
                Err(Error::I2c(e))
            },
            Event::Waited => {
                if self.data.len() / 2 == 0 {
                    self.stage = Stage::Finished;
                    Ok(Action::Done)
                } else {
                    self.stage = Stage::Reading;
                    Ok(Action::Read(self.address))
                }
            },
            Event::Received(Err(e)) => {
                self.stage = Stage::Failed;
                Err(Error::I2c(e))
            },
            Event::Received(Ok(word)) => {
                if !check_word(&word) {
                    self.stage = Stage::Failed;
                    Err(Error::Crc)
                } else {
                    let k = self.received;
                    let len = self.data.len();
                    assert(2 * k + 1 < len);
                    self.data.set(2 * k, word[0]);
                    self.data.set(2 * k + 1, word[1]);
                    self.received = k + 1;
                    if k + 1 == self.data.len() / 2 {
                        self.stage = Stage::Finished;
                        Ok(Action::Done)
                    } else {
                        self.stage = Stage::Reading;
                        Ok(Action::Read(self.address))
                    }
                }
            },
        }
    }
}

/// The exchange after the replies `replies` were read one by one, each with
/// its checksum intact.
pub open spec fn after_replies(v: TransactionView, replies: Seq<[u8; 3]>) -> TransactionView
    decreases replies.len(),
{
    if replies.len() == 0 {
        v
    } else {
        after_replies(v.store_word(replies[0]@), replies.drop_first())
    }
}

/// Whether every reply carries the checksum of its data bytes.
pub open spec fn all_valid(replies: Seq<[u8; 3]>) -> bool {
    forall|k: int| 0 <= k < replies.len() ==> word_is_valid(#[trigger] replies[k]@)
}

/// Reading the remaining words of an exchange: as long as the checksums
/// hold, each word is stored at its place in the data buffer, two bytes per
/// word in the order read, the exchange goes on reading until the last word
/// and then finishes; the rest of the buffer is left as it was.
pub proof fn lemma_replies_fill_data(v: TransactionView, replies: Seq<[u8; 3]>)
    requires
        v.wf(),
        v.stage == Stage::Reading,
        v.received + replies.len() == v.words(),
        all_valid(replies),
    ensures
        ({
            let w = after_replies(v, replies);
            &&& w.wf()
            &&& w.stage == Stage::Finished
            &&& w.received == v.words()
            &&& w.address == v.address
            &&& w.frame == v.frame
            &&& w.delay_ms == v.delay_ms
            &&& w.data.len() == v.data.len()
            &&& forall|k: int|
                0 <= k < replies.len() ==> w.data[2 * (v.received + k)] == (#[trigger] replies[k])@[0]
                    && w.data[2 * (v.received + k) + 1] == replies[k]@[1]
            &&& forall|i: int| 0 <= i < 2 * v.received ==> w.data[i] == v.data[i]
            &&& forall|i: int| 2 * v.words() <= i < v.data.len() ==> w.data[i] == v.data[i]
        }),
    decreases replies.len(),
{
    let next = v.store_word(replies[0]@);
    let rest = replies.drop_first();
    if rest.len() == 0 {
        assert(after_replies(next, rest) == next);
    } else {
        assert(all_valid(rest)) by {
            assert forall|k: int| 0 <= k < rest.len() implies word_is_valid(#[trigger] rest[k]@) by {
                assert(rest[k] == replies[k + 1]);
            }
        }
        lemma_replies_fill_data(next, rest);
        let w = after_replies(next, rest);
        assert forall|k: int| 0 <= k < replies.len() implies w.data[2 * (v.received + k)] == (
        #[trigger] replies[k])@[0] && w.data[2 * (v.received + k) + 1] == replies[k]@[1] by {
            if k > 0 {
                assert(replies[k] == rest[k - 1]);
                assert(2 * (v.received + k) == 2 * (next.received + (k - 1)));
            }
        }
    }
}

/// An exchange that goes as planned: started, its frame written, its wait
/// over, and every reply word read with its checksum intact. It asks for the
/// write, then for the command's delay, then for a read per word (none when
/// the data buffer holds no word), and finishes with the reply words in its
/// data buffer, two bytes each in the order read, the rest still zeros.
pub proof fn law_exchange_without_errors<E>(v: TransactionView, replies: Seq<[u8; 3]>)
    requires
        v.wf(),
        v.stage == Stage::Idle,
        v.data == Seq::new(v.data.len(), |i: int| 0u8),
        replies.len() == v.words(),
        all_valid(replies),
    ensures
        ({
            let (v1, a1) = v.next::<E>(Event::Start);
            let (v2, a2) = v1.next::<E>(Event::Written(Ok(())));
            let (v3, a3) = v2.next::<E>(Event::Waited);
            let w = after_replies(v3, replies);
            &&& a1 == Ok::<Action, Error<E>>(Action::Write(v.address))
            &&& a2 == Ok::<Action, Error<E>>(Action::Delay(v.delay_ms))
            &&& a3 == Ok::<Action, Error<E>>(
                if v.words() == 0 {
                    Action::Done
                } else {
                    Action::Read(v.address)
                },
            )
            &&& w.stage == Stage::Finished
            &&& w.frame == v.frame
            &&& w.data.len() == v.data.len()
            &&& forall|k: int|
                0 <= k < replies.len() ==> w.data[2 * k] == (#[trigger] replies[k])@[0] && w.data[2
                    * k + 1] == replies[k]@[1]
            &&& forall|i: int| 2 * v.words() <= i < v.data.len() ==> w.data[i] == 0
        }),
{
    let (v1, a1) = v.next::<E>(Event::Start);
    let (v2, a2) = v1.next::<E>(Event::Written(Ok(())));
    let (v3, a3) = v2.next::<E>(Event::Waited);
    if v.words() > 0 {
        lemma_replies_fill_data(v3, replies);
    } else {
        assert(replies.len() == 0);
    }
}

/// An exchange that has finished or failed waits for nothing more.
pub proof fn law_ended_exchange_takes_no_event<E>(v: TransactionView, event: Event<E>)
    requires
        v.stage == Stage::Finished || v.stage == Stage::Failed,
    ensures
        !v.accepts(event),
{
}

/// Every bus operation an exchange asks for goes to the exchange's address,
/// and no event changes that address.
pub proof fn law_exchange_keeps_its_address<E>(v: TransactionView, event: Event<E>)
    ensures
        v.next(event).0.address == v.address,
        v.next(event).1 matches Ok(Action::Write(a)) ==> a == v.address,
        v.next(event).1 matches Ok(Action::Read(a)) ==> a == v.address,
{
}

/// Every word read is checked, the first as much as the later ones: while
/// reading, a word whose third byte is not the CRC-8 of its first two ends
/// the exchange with `Crc`, and a word whose checksum holds is stored and
/// never gives an error.
pub proof fn law_every_word_is_checked<E>(v: TransactionView, word: [u8; 3])
    requires
        v.wf(),
        v.stage == Stage::Reading,
    ensures
        word@[2] != crc8_spec(seq![word@[0], word@[1]]) ==> v.next::<E>(Event::Received(Ok(word)))
            == (v.in_stage(Stage::Failed), Err::<Action, Error<E>>(Error::Crc)),
        word@[2] == crc8_spec(seq![word@[0], word@[1]]) ==> {
            let (w, r) = v.next::<E>(Event::Received(Ok(word)));
            &&& r is Ok
            &&& w.received == v.received + 1
            &&& w.data[2 * v.received as int] == word@[0]
            &&& w.data[2 * v.received as int + 1] == word@[1]
        },
{
    assert(word@.subrange(0, 2) =~= seq![word@[0], word@[1]]);
}

/// An exchange never gets stuck: whatever action it asks for, it accepts
/// every outcome of that action. After asking for a write it accepts the
/// write's result, after a wait the end of the wait, after a read the
/// read's result; and when it says it is done it has finished.
pub proof fn law_every_action_can_be_answered<E>(v: TransactionView, event: Event<E>)
    requires
        v.wf(),
        v.accepts(event),
    ensures
        ({
            let (w, r) = v.next(event);
            &&& r matches Ok(Action::Write(_)) ==> forall|o: Result<(), E>|
                #[trigger] w.accepts(Event::Written(o))
            &&& r matches Ok(Action::Delay(_)) ==> w.accepts(Event::<E>::Waited)
            &&& r matches Ok(Action::Read(_)) ==> forall|o: Result<[u8; 3], E>|
                #[trigger] w.accepts(Event::Received(o))
            &&& r matches Ok(Action::Done) ==> w.stage == Stage::Finished
        }),
{
}

/// A waiting exchange always accepts the end of the wait, whether it reads
/// words afterwards or not; one that reads no word is then done.
pub proof fn law_wait_always_ends<E>(v: TransactionView)
    requires
        v.wf(),
        v.stage == Stage::Waiting,
    ensures
        v.accepts(Event::<E>::Waited),
        v.data.len() < 2 ==> v.next(Event::<E>::Waited) == (
            v.in_stage(Stage::Finished),
            Ok::<Action, Error<E>>(Action::Done),
        ),
        v.data.len() >= 2 ==> v.next(Event::<E>::Waited).1 == Ok::<Action, Error<E>>(
            Action::Read(v.address),
        ),
{
}

} // verus!
