use vstd::prelude::*;

verus! {

/// A list entry: its text and a placeholder priority, fixed at 1 on
/// creation and never changed afterwards.
pub struct Item {
    pub text: String,
    pub priority: usize,
}

/// The text buffer of the popup overlay, together with a cached display
/// width: the number of characters (not bytes) in the buffer, used for
/// cursor placement.
pub struct PopupEditor {
    pub buffer: String,
    pub display_width: usize,
}

/// Relies on String::push: appends exactly one character at the end.
#[verifier::external_body]
fn push_char(s: &mut String, c: char)
    requires
        old(s)@.len() < usize::MAX,
    ensures
        final(s)@ == old(s)@.push(c),
{
    s.push(c);
}

/// Relies on String::pop: removes and returns the last character, or
/// returns None and leaves the string unchanged when it is empty.
#[verifier::external_body]
fn pop_char(s: &mut String) -> (r: Option<char>)
    ensures
        old(s)@.len() == 0 ==> final(s)@ == old(s)@ && r == Option::<char>::None,
        old(s)@.len() > 0 ==> final(s)@ == old(s)@.drop_last() && r == Option::Some(
            old(s)@.last(),
        ),
{
    s.pop()
}

impl PopupEditor {
    /// The cached width never drifts from the character count of the buffer.
    pub open spec fn wf(&self) -> bool {
        self.display_width == self.buffer@.len()
    }

    /// Creates an editor with an empty buffer.
    pub fn new() -> (e: PopupEditor)
        ensures
            e.wf(),
            e.buffer@ == Seq::<char>::empty(),
            e.display_width == 0,
    {
        PopupEditor { buffer: String::new(), display_width: 0 }
    }

    /// Appends `c` to the buffer and recomputes the display width.
    pub fn insert_char(&mut self, c: char)
        requires
            old(self).wf(),
            old(self).buffer@.len() < usize::MAX,
        ensures
            final(self).wf(),
            final(self).buffer@ == old(self).buffer@.push(c),
            final(self).display_width == old(self).display_width + 1,
    {
        push_char(&mut self.buffer, c);
        self.display_width = self.display_width + 1;
    }

    /// Removes the last character, if any, and recomputes the display
    /// width; on an empty buffer this is a no-op.
    pub fn backspace(&mut self)
        requires
            old(self).wf(),
        ensures
            final(self).wf(),
            old(self).buffer@.len() == 0 ==> final(self).buffer@ == old(self).buffer@
                && final(self).display_width == old(self).display_width,
            old(self).buffer@.len() > 0 ==> final(self).buffer@ == old(self).buffer@.drop_last()
                && final(self).display_width == old(self).display_width - 1,
    {
        let removed = pop_char(&mut self.buffer);
        if removed.is_some() {
            self.display_width = self.display_width - 1;
        }
    }

    /// Turns the buffer into a new item with priority 1 and resets the
    /// buffer to empty.
    pub fn commit(&mut self) -> (item: Item)
        requires
            old(self).wf(),
        ensures
            final(self).wf(),
            final(self).buffer@ == Seq::<char>::empty(),
            final(self).display_width == 0,
            item.text@ == old(self).buffer@,
            item.priority == 1,
    {
        let text = self.buffer.clone();
        self.buffer = String::new();
        self.display_width = 0;
        Item { text, priority: 1 }
    }

    /// Resets the buffer to empty without producing an item.
    pub fn discard(&mut self)
        requires
            old(self).wf(),
        ensures
            final(self).wf(),
            final(self).buffer@ == Seq::<char>::empty(),
            final(self).display_width == 0,
    {
        self.buffer = String::new();
        self.display_width = 0;
    }
}

} // verus!
