use vstd::prelude::*;

use crate::decimal::{decimal_text, format_decimal};

verus! {

/// A value that an edit buffer shows as text.
pub trait BufferText: Sized {
    /// The text that shows the value.
    spec fn shown(&self) -> Seq<char>;

    fn show(&self) -> (r: String)
        ensures
            r@ == self.shown(),
    ;
}

impl BufferText for u32 {
    open spec fn shown(&self) -> Seq<char> {
        decimal_text(*self as int)
    }

    fn show(&self) -> (r: String) {
        format_decimal(*self as u64)
    }
}

impl BufferText for String {
    open spec fn shown(&self) -> Seq<char> {
        self@
    }

    fn show(&self) -> (r: String) {
        self.clone()
    }
}

/// What an edit buffer holds: the authoritative value, the text being edited, whether an edit
/// is under way, and the message of the last failed validation.
pub struct BufferState<T> {
    pub authoritative: T,
    pub buffer: Seq<char>,
    pub editing: bool,
    pub error: Option<Seq<char>>,
}

/// A buffer holding exactly what `value` shows, with no edit under way.
pub open spec fn at_rest<T: BufferText>(value: T) -> BufferState<T> {
    BufferState { authoritative: value, buffer: value.shown(), editing: false, error: None }
}

/// An edit begun: the buffer restarts from the authoritative value.
pub open spec fn begun<T: BufferText>(state: BufferState<T>) -> BufferState<T> {
    BufferState { buffer: state.authoritative.shown(), editing: true, error: None, ..state }
}

/// Text typed into the buffer.
pub open spec fn typed<T>(state: BufferState<T>, text: Seq<char>) -> BufferState<T> {
    BufferState { buffer: text, ..state }
}

/// The buffer after its text was read: only the error changes.
pub open spec fn checked<T>(state: BufferState<T>, outcome: Result<T, Seq<char>>) -> BufferState<T> {
    BufferState {
        error: match outcome {
            Ok(_) => None,
            Err(message) => Some(message),
        },
        ..state
    }
}

/// A value committed: it becomes authoritative and is shown, and the edit ends.
pub open spec fn committed_value<T: BufferText>(state: BufferState<T>, value: T) -> BufferState<T> {
    at_rest(value)
}

/// The edit dropped: the buffer shows the authoritative value again.
pub open spec fn canceled<T: BufferText>(state: BufferState<T>) -> BufferState<T> {
    at_rest(state.authoritative)
}

/// A new authoritative value from elsewhere: shown at once unless an edit is under way, which
/// keeps its text.
pub open spec fn synchronized<T: BufferText>(state: BufferState<T>, value: T) -> BufferState<T> {
    if state.editing {
        BufferState { authoritative: value, ..state }
    } else {
        at_rest(value)
    }
}

/// A text field's edit buffer: invalid text never reaches the authoritative value.
pub struct EditBuffer<T> {
    authoritative: T,
    buffer: String,
    editing: bool,
    error: Option<String>,
}

impl<T> View for EditBuffer<T> {
    type V = BufferState<T>;

    closed spec fn view(&self) -> BufferState<T> {
        BufferState {
            authoritative: self.authoritative,
            buffer: self.buffer@,
            editing: self.editing,
            error: match self.error {
                Some(message) => Some(message@),
                None => None,
            },
        }
    }
}

impl<T: BufferText> EditBuffer<T> {
    pub fn new(authoritative: T) -> (r: Self)
        ensures
            r@ == at_rest(authoritative),
    {
        EditBuffer { buffer: authoritative.show(), authoritative, editing: false, error: None }
    }

    pub fn begin(&mut self)
        ensures
            final(self)@ == begun(old(self)@),
    {
        self.buffer = self.authoritative.show();
        self.error = None;
        self.editing = true;
    }

    pub fn input(&mut self, value: &str)
        ensures
            final(self)@ == typed(old(self)@, value@),
    {
        self.buffer = value.to_owned();
    }

    /// Reads the buffer with `parser`: a value read is returned and clears the error; a failure
    /// is kept as the error. Neither touches the authoritative value or the buffer.
    pub fn validate<F: FnOnce(&str) -> Result<T, String>>(&mut self, parser: F) -> (r: Option<T>)
        requires
            forall|text: &str| text@ == old(self)@.buffer ==> #[trigger] parser.requires((text,)),
        ensures
            exists|text: &str, outcome: Result<T, String>|
                #![trigger parser.ensures((text,), outcome)]
                text@ == old(self)@.buffer && parser.ensures((text,), outcome) && final(self)@
                    == checked(
                    old(self)@,
                    match outcome {
                        Ok(value) => Ok(value),
                        Err(message) => Err(message@),
                    },
                ) && r == match outcome {
                    Ok(value) => Some(value),
                    Err(_) => None,
                },
    {
        let outcome = parser(self.buffer.as_str());
        match outcome {
            Ok(value) => {
                self.error = None;
                Some(value)
            },
            Err(error) => {
                self.error = Some(error);
                None
            },
        }
    }

    pub fn commit(&mut self, value: T)
        ensures
            final(self)@ == committed_value(old(self)@, value),
    {
        self.buffer = value.show();
        self.authoritative = value;
        self.error = None;
        self.editing = false;
    }

    pub fn cancel(&mut self)
        ensures
            final(self)@ == canceled(old(self)@),
    {
        self.buffer = self.authoritative.show();
        self.error = None;
        self.editing = false;
    }

    pub fn synchronize(&mut self, authoritative: T)
        ensures
            final(self)@ == synchronized(old(self)@, authoritative),
    {
        if !self.editing {
            self.buffer = authoritative.show();
            self.error = None;
        }
        self.authoritative = authoritative;
    }

    pub fn buffer(&self) -> (r: &str)
        ensures
            r@ == self@.buffer,
    {
        self.buffer.as_str()
    }

    pub fn editing(&self) -> (r: bool)
        ensures
            r == self@.editing,
    {
        self.editing
    }

    pub fn error(&self) -> (r: Option<&str>)
        ensures
            match self@.error {
                Some(message) => r matches Some(m) && m@ == message,
                None => r is None,
            },
    {
        match &self.error {
            Some(message) => Some(message.as_str()),
            None => None,
        }
    }
}

} // verus!
