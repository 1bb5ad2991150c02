use vstd::prelude::*;

verus! {

/// One of four message shapes.
pub enum Message {
    Quit,
    Move { x: i32, y: i32 },
    Write(String),
    ChangeColor(i32, i32, i32),
}

/// A text message holds its payload exactly as it was given.
pub proof fn lemma_write_keeps_payload(payload: String)
    ensures
        Message::Write(payload) matches Message::Write(p) && p@ == payload@,
{
}

} // verus!
