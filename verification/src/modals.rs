//! The stack of open modal dialogs.

use vstd::prelude::*;

verus! {

/// What is asked of the modal stack.
#[derive(Debug)]
pub enum ModalMessage<H> {
    /// Open a dialog on top.
    Open(H),
    /// Close the top dialog, if any.
    CloseTop,
    /// Close every dialog.
    CloseAll,
}

/// The open dialogs, bottom first; only the top one is active.
pub struct ModalState<H> {
    modals: Vec<H>,
}

impl<H> ModalState<H> {
    /// The open dialogs, bottom first.
    pub closed spec fn view(&self) -> Seq<H> {
        self.modals@
    }

    /// No dialog open.
    pub fn new() -> (s: Self)
        ensures
            s@.len() == 0,
    {
        ModalState { modals: Vec::new() }
    }

    /// The number of open dialogs.
    pub fn len(&self) -> (n: usize)
        ensures
            n == self@.len(),
    {
        self.modals.len()
    }

    /// The top dialog, if any.
    pub fn top(&self) -> (t: Option<&H>)
        ensures
            match t {
                Some(h) => self@.len() > 0 && *h == self@.last(),
                None => self@.len() == 0,
            },
    {
        if self.modals.len() == 0 {
            None
        } else {
            Some(&self.modals[self.modals.len() - 1])
        }
    }

    /// Applies a message: open pushes, close-top pops, close-all empties the stack.
    pub fn reduce(&mut self, action: ModalMessage<H>)
        ensures
            match action {
                ModalMessage::Open(h) => final(self)@ == old(self)@.push(h),
                ModalMessage::CloseTop => final(self)@ == (if old(self)@.len() == 0 { old(self)@ } else { old(self)@.drop_last() }),
                ModalMessage::CloseAll => final(self)@.len() == 0,
            },
    {
        match action {
            ModalMessage::Open(h) => self.modals.push(h),
            ModalMessage::CloseTop => {
                let _ = self.modals.pop();
            },
            ModalMessage::CloseAll => self.modals.clear(),
        }
    }
}

/// Opening a dialog and then closing the top one leaves the stack as it was.
pub proof fn lemma_open_then_close_top<H>(before: Seq<H>, h: H)
    ensures
        before.push(h).len() != 0,
        before.push(h).drop_last() == before,
{
    assert(before.push(h).drop_last() =~= before);
}

} // verus!
