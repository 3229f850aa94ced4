//! The local terminal: its mode, and what a key press sends.

use vstd::prelude::*;
use vstd::string::StrSliceExecFns;
use vstd::utf8::{encode_scalar, encode_utf8};
use crate::event::{LoopEvent, LoopEventView, SshEvent};

verus! {

/// A key press as the local terminal reports it.
#[derive(Clone, Copy, Debug, PartialEq, Eq)]
pub enum KeyPress {
    /// A key that stands for a character.
    Char(char),
    /// Any other key or event.
    Other,
}

/// What a key press amounts to for the event loop: a character is local
/// input of its UTF-8 bytes, anything else is nothing.
pub open spec fn key_event(key: KeyPress) -> Option<LoopEventView> {
    match key {
        KeyPress::Char(c) => Some(LoopEventView::LocalInput(encode_utf8(seq![c]))),
        KeyPress::Other => None,
    }
}

/// A character has between one and four UTF-8 bytes, so a key press never
/// reads as the end of input.
pub proof fn lemma_key_keeps_running(c: char)
    ensures
        1 <= encode_utf8(seq![c]).len() <= 4,
        key_event(KeyPress::Char(c)) matches Some(event) && event.keeps_running(),
{
    assert(seq![c].drop_first() =~= Seq::<char>::empty());
    assert(encode_utf8(seq![c].drop_first()) =~= Seq::<u8>::empty());
    assert(encode_utf8(seq![c]) =~= encode_scalar(c as u32));
}

/// The string that `ToString::to_string` of std makes of a character: that
/// character and nothing else.
#[verifier::external_body]
fn char_string(c: char) -> (string: String)
    ensures
        string@ == seq![c],
{
    c.to_string()
}

/// The controller of the local terminal. It keeps the book on the raw-mode
/// guard: taken at most once, and given back on every way out.
#[derive(Clone, Copy, Debug)]
pub struct Terminal {
    raw: bool,
}

impl Terminal {
    /// Whether the raw-mode guard is held.
    pub closed spec fn raw(&self) -> bool {
        self.raw
    }

    /// A terminal in cooked mode.
    pub fn new() -> (terminal: Terminal)
        ensures
            !terminal.raw(),
    {
        Terminal { raw: false }
    }

    /// Takes the raw-mode guard. Returns whether the driver has to switch
    /// the terminal to raw mode: it has unless the guard was held already.
    pub fn enter_raw_mode(&mut self) -> (switch: bool)
        ensures
            final(self).raw(),
            switch == !old(self).raw(),
    {
        let switch = !self.raw;
        self.raw = true;
        switch
    }

    /// Gives the raw-mode guard back. Returns whether the driver has to
    /// restore the terminal: it has if the guard was held.
    pub fn restore_mode(&mut self) -> (switch: bool)
        ensures
            !final(self).raw(),
            switch == old(self).raw(),
    {
        let switch = self.raw;
        self.raw = false;
        switch
    }

    /// Whether the raw-mode guard is held.
    pub fn is_raw(&self) -> (raw: bool)
        ensures
            raw == self.raw(),
    {
        self.raw
    }

    /// The bytes that a message of the channel puts on local output: its
    /// payload as it came, whichever stream it belongs to, and nothing for a
    /// message without one.
    pub fn render(&self, message: SshEvent) -> (bytes: Vec<u8>)
        ensures
            bytes@ == message@.payload(),
    {
        match message {
            SshEvent::Data(bytes) => bytes,
            SshEvent::ExtendedData(bytes, _) => bytes,
            SshEvent::Exit(_) => Vec::new(),
            SshEvent::Closed => Vec::new(),
        }
    }

    /// Turns a key press into the event that forwards it: the UTF-8 bytes of
    /// a character as local input, and nothing for any other key.
    pub fn input(&self, key: KeyPress) -> (event: Option<LoopEvent>)
        ensures
            event is Some <==> key is Char,
            event matches Some(e) ==> Some(e@) == key_event(key) && e@.keeps_running(),
    {
        match key {
            KeyPress::Char(c) => {
                proof {
                    lemma_key_keeps_running(c);
                }
                Some(LoopEvent::LocalInput(char_string(c).as_str().as_bytes_vec()))
            },
            KeyPress::Other => None,
        }
    }
}

} // verus!
