use vstd::prelude::*;

use crate::wire::with_newline;

verus! {

/// What the outgoing writer observes on its queue.
pub enum WriterEvent {
    /// The next command line to deliver.
    Command(Vec<u8>),
    /// The queue is closed: no command will ever follow.
    Closed,
}

/// What the outgoing writer does next.
pub enum WriterAction {
    /// Write these bytes to the worker's input stream, then flush.
    Write(Vec<u8>),
    /// Write nothing further and exit, closing the worker's input stream.
    Exit,
}

/// One step of the outgoing writer: a command is normalized to end with
/// a newline and written; a closed queue means exit, with no further
/// write.
pub fn writer_step(ev: WriterEvent) -> (a: WriterAction)
    ensures
        (ev matches WriterEvent::Command(c) ==> a matches WriterAction::Write(w) && w@
            == with_newline(c@)),
        (ev is Closed ==> a is Exit),
{
    match ev {
        WriterEvent::Command(mut c) => {
            crate::wire::ensure_trailing_newline(&mut c);
            WriterAction::Write(c)
        },
        WriterEvent::Closed => WriterAction::Exit,
    }
}

} // verus!
