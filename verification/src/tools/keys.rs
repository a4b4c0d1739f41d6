//! Keys of the keyboard, and the events that press them.
use vstd::prelude::*;

use crate::error::{Failure, Refusal};
use crate::text::{chars_of, opt_text, same_text};

verus! {

/// A key of a keyboard layout, over the type of texts.
pub struct KeyDef<S> {
    /// The name of the key: what it writes, or what it is called.
    pub key: S,
    pub code: S,
    pub key_code: i64,
    /// What the key writes, where the layout says so.
    pub text: Option<S>,
}

/// What an event does to a key.
#[derive(Debug, Clone, Copy, PartialEq, Eq, Structural)]
pub enum KeyAction {
    /// It goes down and writes.
    Down,
    /// It goes down and writes nothing.
    RawDown,
    /// It comes up.
    Up,
}

/// An event of a key, over the type of texts.
pub struct KeyEvent<S> {
    pub action: KeyAction,
    pub key: S,
    pub code: S,
    pub key_code: i64,
    pub text: Option<S>,
}

/// What a key says.
pub open spec fn key_view(k: KeyDef<String>) -> KeyDef<Seq<char>> {
    KeyDef { key: k.key@, code: k.code@, key_code: k.key_code, text: opt_text(k.text) }
}

/// What an event says.
pub open spec fn event_view(e: KeyEvent<String>) -> KeyEvent<Seq<char>> {
    KeyEvent {
        action: e.action,
        key: e.key@,
        code: e.code@,
        key_code: e.key_code,
        text: opt_text(e.text),
    }
}

/// What the keys of a layout say.
pub open spec fn keys(layout: Seq<KeyDef<String>>) -> Seq<KeyDef<Seq<char>>> {
    layout.map_values(|k: KeyDef<String>| key_view(k))
}

/// The first key of a layout with the name.
pub open spec fn key_named(layout: Seq<KeyDef<Seq<char>>>, key: Seq<char>) -> Option<
    KeyDef<Seq<char>>,
>
    decreases layout.len(),
{
    if layout.len() == 0 {
        None
    } else if layout[0].key == key {
        Some(layout[0])
    } else {
        key_named(layout.skip(1), key)
    }
}

/// What a key writes: what the layout says, or its name where that is a single
/// character.
pub open spec fn written(k: KeyDef<Seq<char>>) -> Option<Seq<char>> {
    match k.text {
        Some(t) => Some(t),
        None => if k.key.len() == 1 {
            Some(k.key)
        } else {
            None
        },
    }
}

/// The event that presses a key.
pub open spec fn down_event(k: KeyDef<Seq<char>>) -> KeyEvent<Seq<char>> {
    KeyEvent {
        action: if written(k) is Some {
            KeyAction::Down
        } else {
            KeyAction::RawDown
        },
        key: k.key,
        code: k.code,
        key_code: k.key_code,
        text: written(k),
    }
}

/// The event that releases a key.
pub open spec fn up_event(k: KeyDef<Seq<char>>) -> KeyEvent<Seq<char>> {
    KeyEvent {
        action: KeyAction::Up,
        key: k.key,
        code: k.code,
        key_code: k.key_code,
        text: None,
    }
}

/// The events that press and release a key: it goes down, writing if it writes,
/// and comes up.
pub fn dispatch_key(layout: &Vec<KeyDef<String>>, key: &str) -> (r: Result<
    (KeyEvent<String>, KeyEvent<String>),
    Refusal,
>)
    ensures
        match r {
            Ok((down, up)) => {
                &&& key_named(keys(layout@), key@) is Some
                &&& event_view(down) == down_event(key_named(keys(layout@), key@)->0)
                &&& event_view(up) == up_event(key_named(keys(layout@), key@)->0)
            },
            Err(e) => {
                &&& key_named(keys(layout@), key@) is None
                &&& e@ == Failure::UnknownKey { key: key@ }
            },
        },
{
    let ghost all = keys(layout@);
    let mut i: usize = 0;
    assert(all.skip(0) =~= all);
    while i < layout.len()
        invariant
            i <= layout@.len(),
            all == keys(layout@),
            key_named(all.skip(i as int), key@) == key_named(all, key@),
        decreases layout@.len() - i,
    {
        assert(all.skip(i as int)[0] == key_view(layout@[i as int]));
        if same_text(layout[i].key.as_str(), key) {
            return Ok(events_of(&layout[i]));
        }
        assert(all.skip(i as int).skip(1) =~= all.skip(i + 1));
        i += 1;
    }
    Err(Failure::UnknownKey { key: key.to_string() })
}

/// The events that press and release a key.
fn events_of(k: &KeyDef<String>) -> (r: (KeyEvent<String>, KeyEvent<String>))
    ensures
        event_view(r.0) == down_event(key_view(*k)),
        event_view(r.1) == up_event(key_view(*k)),
{
    let text = match &k.text {
        Some(t) => Some(t.clone()),
        None => {
            if chars_of(k.key.as_str()).len() == 1 {
                Some(k.key.clone())
            } else {
                None
            }
        },
    };
    let action = if text.is_some() {
        KeyAction::Down
    } else {
        KeyAction::RawDown
    };
    (
        KeyEvent {
            action,
            key: k.key.clone(),
            code: k.code.clone(),
            key_code: k.key_code,
            text,
        },
        KeyEvent {
            action: KeyAction::Up,
            key: k.key.clone(),
            code: k.code.clone(),
            key_code: k.key_code,
            text: None,
        },
    )
}

}
