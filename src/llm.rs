//! Generator stage: keeps the conversation history, builds the model's
//! context from it, and fans each generated fragment out to both sinks.
use crate::defaults::{DEFAULT_MODEL_NAME, HISTORY_SIZE};
use crate::history::{added, join_lines, History};
use crate::message::Chunk;
use vstd::prelude::*;
use vstd::utf8::encode_utf8;

verus! {

#[derive(Clone, Debug)]
pub struct Config {
    pub hist_size: usize,
    pub model_name: String,
    pub seed_prompt: Option<String>,
}

impl Default for Config {
    fn default() -> (c: Self)
        ensures
            c.hist_size == HISTORY_SIZE,
            c.model_name@ == DEFAULT_MODEL_NAME@,
            c.seed_prompt is None,
    {
        Config {
            hist_size: HISTORY_SIZE,
            model_name: String::from_str(DEFAULT_MODEL_NAME),
            seed_prompt: None,
        }
    }
}

/// What a chunk carries: the bytes of a fragment, or nothing for the end of
/// a message.
pub open spec fn chunk_view(c: Chunk) -> Option<Seq<u8>> {
    match c {
        Chunk::Fragment(b) => Some(b@),
        Chunk::EndOfMessage => None,
    }
}

/// The chunks that each sink receives for a reply made of `fragments`: each
/// fragment's UTF-8 bytes in order, then the end marker.
pub open spec fn reply_stream(fragments: Seq<Seq<char>>) -> Seq<Option<Seq<u8>>> {
    fragments.map_values(|f: Seq<char>| Some(encode_utf8(f))).push(None)
}

/// The two chunks handed to the writer and to the synthesizer for one
/// fragment (`Some`) or for the end of the reply (`None`).
pub open spec fn fan_out_pair(fragment: Option<Seq<char>>) -> (Option<Seq<u8>>, Option<Seq<u8>>) {
    match fragment {
        Some(f) => (Some(encode_utf8(f)), Some(encode_utf8(f))),
        None => (None, None),
    }
}

/// The sequence of pairs handed out for a reply made of `fragments`.
pub open spec fn fan_out_reply(fragments: Seq<Seq<char>>) -> Seq<(Option<Seq<u8>>, Option<Seq<u8>>)> {
    fragments.map_values(|f: Seq<char>| fan_out_pair(Some(f))).push(fan_out_pair(None))
}

/// For a reply made of any fragments, the writer's sequence and the
/// synthesizer's sequence are the same: the fragments in the order generated,
/// then the end marker.
pub proof fn lemma_fan_out_order(fragments: Seq<Seq<char>>)
    ensures
        fan_out_reply(fragments).map_values(|p: (Option<Seq<u8>>, Option<Seq<u8>>)| p.0)
            == reply_stream(fragments),
        fan_out_reply(fragments).map_values(|p: (Option<Seq<u8>>, Option<Seq<u8>>)| p.1)
            == reply_stream(fragments),
{
    assert(fan_out_reply(fragments).map_values(|p: (Option<Seq<u8>>, Option<Seq<u8>>)| p.0)
        =~= reply_stream(fragments));
    assert(fan_out_reply(fragments).map_values(|p: (Option<Seq<u8>>, Option<Seq<u8>>)| p.1)
        =~= reply_stream(fragments));
}

pub struct Generator {
    history: History,
    model_name: String,
}

impl Generator {
    /// The conversation so far, oldest first.
    pub closed spec fn entries(&self) -> Seq<Seq<char>> {
        self.history.view_entries()
    }

    /// The capacity of the history.
    pub closed spec fn hist_size(&self) -> nat {
        self.history.capacity()
    }

    /// The model that replies are asked of.
    pub closed spec fn model(&self) -> Seq<char> {
        self.model_name@
    }

    pub closed spec fn wf(&self) -> bool {
        self.history.wf()
    }

    /// A generator whose history holds the seed prompt, if there is one.
    pub fn new(c: Config) -> (g: Self)
        ensures
            g.wf(),
            g.hist_size() == c.hist_size,
            g.model() == c.model_name@,
            g.entries() == match c.seed_prompt {
                Some(s) => added(Seq::empty(), c.hist_size as nat, s@),
                None => Seq::<Seq<char>>::empty(),
            },
    {
        let mut history = History::new(c.hist_size);
        match c.seed_prompt {
            Some(seed) => history.add(seed),
            None => {},
        }
        Generator { history, model_name: c.model_name }
    }

    /// The model's name, for the generation request.
    pub fn model_name(&self) -> (r: &String)
        ensures
            r@ == self.model(),
    {
        &self.model_name
    }

    /// Records a prompt and returns the context to generate from: the whole
    /// history, oldest first, one entry per line.
    pub fn on_prompt(&mut self, prompt: String) -> (context: String)
        requires
            old(self).wf(),
        ensures
            final(self).wf(),
            final(self).hist_size() == old(self).hist_size(),
            final(self).model() == old(self).model(),
            final(self).entries() == added(old(self).entries(), old(self).hist_size(), prompt@),
            context@ == join_lines(final(self).entries()),
    {
        self.history.add(prompt);
        self.history.string()
    }

    /// The same fragment for the writer and for the synthesizer.
    pub fn fan_out(fragment: &str) -> (r: (Chunk, Chunk))
        ensures
            (chunk_view(r.0), chunk_view(r.1)) == fan_out_pair(Some(fragment@)),
    {
        let b = fragment.as_bytes_vec();
        (Chunk::Fragment(b.clone()), Chunk::Fragment(b))
    }

    /// The end marker for the writer and for the synthesizer.
    pub fn end_of_reply() -> (r: (Chunk, Chunk))
        ensures
            (chunk_view(r.0), chunk_view(r.1)) == fan_out_pair(None),
    {
        (Chunk::EndOfMessage, Chunk::EndOfMessage)
    }
}

} // verus!
