//! Bus side of the pipeline: its settings, reading prompts, and the writer
//! that publishes a reply only once its spoken turn has ended.
use crate::buffer::{bytes_contents, bytes_into_vec, bytes_mut_contents};
use crate::defaults::{BOT_NAME, BOT_PUB_SUBJECT, BOT_SUB_SUBJECT, NATS_DEFAULT_URL, STREAM_NAME};
use crate::message::{utf8_text, Chunk, InvalidText};
use bytes::{Bytes, BytesMut};
use vstd::prelude::*;
use vstd::utf8::{decode_utf8, valid_utf8};

verus! {

#[derive(Clone, Debug)]
pub struct Config {
    pub nats_url: String,
    pub durable_name: String,
    pub stream_name: String,
    pub pub_subject: String,
    pub sub_subject: String,
}

impl Default for Config {
    /// The default settings; the bus address is the local default, which the
    /// process may replace from its environment.
    fn default() -> (c: Self)
        ensures
            c.nats_url@ == NATS_DEFAULT_URL@,
            c.durable_name@ == BOT_NAME@,
            c.stream_name@ == STREAM_NAME@,
            c.pub_subject@ == BOT_PUB_SUBJECT@,
            c.sub_subject@ == BOT_SUB_SUBJECT@,
    {
        Config {
            nats_url: String::from_str(NATS_DEFAULT_URL),
            durable_name: String::from_str(BOT_NAME),
            stream_name: String::from_str(STREAM_NAME),
            pub_subject: String::from_str(BOT_PUB_SUBJECT),
            sub_subject: String::from_str(BOT_SUB_SUBJECT),
        }
    }
}

/// The prompt carried by a message from the bus: its payload as text.
pub fn prompt_from_payload(payload: Vec<u8>) -> (r: Result<String, InvalidText>)
    ensures
        r is Ok <==> valid_utf8(payload@),
        r matches Ok(s) ==> s@ == decode_utf8(payload@),
{
    match utf8_text(payload) {
        Some(s) => Ok(s),
        None => Err(InvalidText),
    }
}

/// An event seen by the writer.
pub enum GateEvent {
    Fragment(Seq<u8>),
    End,
    TurnDone,
}

/// One step of the writer: the text gathered, whether a finished reply waits
/// for the end of its spoken turn, and the reply published by this step.
pub open spec fn gate_step(text: Seq<u8>, awaiting: bool, e: GateEvent) -> (Seq<u8>, bool, Option<Seq<u8>>) {
    match e {
        GateEvent::Fragment(d) => (text + d, awaiting, None),
        GateEvent::End => (text, true, None),
        GateEvent::TurnDone => if awaiting {
            (Seq::empty(), false, Some(text))
        } else {
            (text, false, None)
        },
    }
}

/// A run of the writer from its start: the text gathered, whether a reply
/// waits, the replies published, and the replies finished, in order.
pub open spec fn gate_run(events: Seq<GateEvent>) -> (Seq<u8>, bool, Seq<Seq<u8>>, Seq<Seq<u8>>)
    decreases events.len(),
{
    if events.len() == 0 {
        (Seq::empty(), false, Seq::empty(), Seq::empty())
    } else {
        let (text, awaiting, published, finished) = gate_run(events.drop_last());
        let e = events.last();
        let (text2, awaiting2, out) = gate_step(text, awaiting, e);
        let finished2 = if e is End {
            finished.push(text)
        } else {
            finished
        };
        let published2 = match out {
            Some(m) => published.push(m),
            None => published,
        };
        (text2, awaiting2, published2, finished2)
    }
}

/// The writer takes no chunk while a finished reply waits: the channel holds
/// the next reply's chunks back until then.
pub open spec fn gate_admissible(events: Seq<GateEvent>) -> bool
    decreases events.len(),
{
    if events.len() == 0 {
        true
    } else {
        &&& gate_admissible(events.drop_last())
        &&& (gate_run(events.drop_last()).1 ==> events.last() is TurnDone)
    }
}

/// The number of turn-done notifications among `events`.
pub open spec fn turn_dones(events: Seq<GateEvent>) -> nat
    decreases events.len(),
{
    if events.len() == 0 {
        0
    } else {
        turn_dones(events.drop_last()) + if events.last() is TurnDone {
            1nat
        } else {
            0nat
        }
    }
}

/// Along any run, replies are published in the order they were finished and
/// none before it was finished; each publication uses up one turn-done
/// notification; and at most one finished reply waits, so reply K is
/// published only on a turn-done notification that came after its end,
/// however far the next reply has got.
pub proof fn lemma_publish_waits_for_turn(events: Seq<GateEvent>)
    requires
        gate_admissible(events),
    ensures
        ({
            let (text, awaiting, published, finished) = gate_run(events);
            &&& published == finished.subrange(0, published.len() as int)
            &&& finished.len() == published.len() + if awaiting {
                1nat
            } else {
                0nat
            }
            &&& published.len() <= turn_dones(events)
            &&& awaiting ==> text == finished.last()
        }),
    decreases events.len(),
{
    if events.len() > 0 {
        let prev = events.drop_last();
        lemma_publish_waits_for_turn(prev);
        let (text, awaiting, published, finished) = gate_run(prev);
        let e = events.last();
        match e {
            GateEvent::End => {
                assert(finished.push(text).subrange(0, published.len() as int)
                    =~= finished.subrange(0, published.len() as int));
            },
            GateEvent::TurnDone => {
                if awaiting {
                    assert(published.push(text) =~= finished.subrange(0, published.len() + 1int));
                }
            },
            GateEvent::Fragment(_) => {},
        }
    }
}

/// The writer's decisions: gathers a reply, then holds it until the player
/// reports the end of the spoken turn.
pub struct TurnGate {
    text: BytesMut,
    awaiting: bool,
}

impl TurnGate {
    /// The bytes of the reply gathered so far.
    pub closed spec fn text(&self) -> Seq<u8> {
        bytes_mut_contents(self.text)
    }

    /// Whether a finished reply waits for the end of its turn.
    pub closed spec fn awaiting(&self) -> bool {
        self.awaiting
    }

    pub fn new() -> (g: Self)
        ensures
            g.text() == Seq::<u8>::empty(),
            !g.awaiting(),
    {
        TurnGate { text: BytesMut::new(), awaiting: false }
    }

    /// Whether the writer is waiting for the end of a turn (and takes no
    /// chunk until then).
    pub fn is_awaiting_turn(&self) -> (r: bool)
        ensures
            r == self.awaiting(),
    {
        self.awaiting
    }

    /// The number of bytes gathered.
    pub fn gathered_len(&self) -> (r: usize)
        ensures
            r == self.text().len(),
    {
        self.text.len()
    }

    /// Takes a chunk. A fragment is gathered. The end marker decodes the reply
    /// for display and makes it wait for the end of the turn; bytes that are
    /// not UTF-8 are an error, and the state is then left as it was.
    pub fn on_chunk(&mut self, chunk: &Chunk) -> (r: Result<Option<String>, InvalidText>)
        requires
            !old(self).awaiting(),
            old(self).text().len() + match chunk {
                Chunk::Fragment(d) => d@.len(),
                Chunk::EndOfMessage => 0,
            } <= isize::MAX,
        ensures
            match chunk {
                Chunk::Fragment(d) => {
                    &&& r matches Ok(None)
                    &&& (final(self).text(), final(self).awaiting(), None::<Seq<u8>>) == gate_step(
                        old(self).text(),
                        old(self).awaiting(),
                        GateEvent::Fragment(d@),
                    )
                },
                Chunk::EndOfMessage => {
                    &&& r is Ok <==> valid_utf8(old(self).text())
                    &&& r matches Ok(m) ==> m matches Some(s) && s@ == decode_utf8(old(self).text())
                    &&& r is Ok ==> (final(self).text(), final(self).awaiting(), None::<Seq<u8>>)
                        == gate_step(old(self).text(), old(self).awaiting(), GateEvent::End)
                    &&& r is Err ==> final(self).text() == old(self).text() && !final(self).awaiting()
                },
            },
    {
        match chunk {
            Chunk::Fragment(d) => {
                self.text.extend_from_slice(d.as_slice());
                Ok(None)
            },
            Chunk::EndOfMessage => {
                let bytes = bytes_into_vec(self.text.clone().freeze());
                match utf8_text(bytes) {
                    Some(s) => {
                        self.awaiting = true;
                        Ok(Some(s))
                    },
                    None => Err(InvalidText),
                }
            },
        }
    }

    /// Takes a turn-done notification: the waiting reply, if any, is handed
    /// out for publication and the gathering starts over.
    pub fn on_turn_done(&mut self) -> (r: Option<Bytes>)
        ensures
            ({
                let (text, awaiting, out) = gate_step(
                    old(self).text(),
                    old(self).awaiting(),
                    GateEvent::TurnDone,
                );
                &&& final(self).text() == text
                &&& final(self).awaiting() == awaiting
                &&& r is Some <==> out is Some
                &&& r matches Some(b) ==> out == Some(bytes_contents(b))
            }),
    {
        if self.awaiting {
            let out = self.text.clone().freeze();
            self.text.clear();
            self.awaiting = false;
            Some(out)
        } else {
            None
        }
    }
}

} // verus!
