//! The deferred numeric-edit session.
//!
//! A session stages a candidate value for one numeric field: every
//! keystroke is kept verbatim in the input buffer and re-parsed; a
//! failed parse records a descriptive validation error without touching
//! the last good staged value; saving is refused while an error is
//! present and otherwise hands the staged value back for the caller to
//! commit (and then close the session). The session never mutates the
//! document itself.
//!
//! The commit target is carried as an opaque value of type `T` chosen
//! by the caller (for the editor, a constructor of an editor command);
//! the session only stores it and hands it back untouched.
use crate::numbers::{
    all_digits, dec_str, digits_part, parse_u64, parse_u64_spec, u64_to_dec, ParseError,
};
use vstd::prelude::*;

verus! {

/// What a numeric-edit session is opened with: the field's display
/// name, its current committed value, its baseline value, and the
/// commit target bound to the field's write-back path.
pub struct NumericFieldEditorInit<T> {
    pub name: String,
    pub value: u64,
    pub original: u64,
    pub target: T,
}

/// A live numeric-edit session: the opening data plus the verbatim
/// input buffer and the current validation error, if any.
pub struct NumericFieldEditorState<T> {
    pub name: String,
    pub value: u64,
    pub original: u64,
    pub target: T,
    pub input: String,
    pub error: Option<String>,
}

/// A command to the session: a text change, or a request to commit.
#[derive(Clone, Debug)]
pub enum NumericFieldEditorMessage {
    EditInput(String),
    Save,
}

/// The reason a numeric input was rejected, classifying exactly the
/// inputs that [`parse_u64_spec`] refuses.
pub open spec fn parse_failure(s: Seq<char>) -> ParseError {
    let t = digits_part(s);
    if t.len() == 0 {
        ParseError::Empty
    } else if !all_digits(t) {
        ParseError::InvalidDigit
    } else {
        ParseError::TooLarge
    }
}

/// The validation message shown for a rejected numeric input.
pub open spec fn validation_error_text(k: ParseError) -> Seq<char> {
    match k {
        ParseError::Empty => "Invalid number: no digits"@,
        ParseError::InvalidDigit => "Invalid number: not a decimal digit"@,
        ParseError::TooLarge => "Invalid number: value does not fit in 64 bits"@,
    }
}

/// A validation message is never empty.
pub proof fn lemma_validation_message_nonempty(k: ParseError)
    ensures
        validation_error_text(k).len() > 0,
{
    reveal_strlit("Invalid number: no digits");
    reveal_strlit("Invalid number: not a decimal digit");
    reveal_strlit("Invalid number: value does not fit in 64 bits");
}

/// Renders the validation message for a parse failure.
fn error_text(k: ParseError) -> (r: String)
    ensures
        r@ == validation_error_text(k),
{
    match k {
        ParseError::Empty => String::from_str("Invalid number: no digits"),
        ParseError::InvalidDigit => String::from_str("Invalid number: not a decimal digit"),
        ParseError::TooLarge => String::from_str(
            "Invalid number: value does not fit in 64 bits",
        ),
    }
}

impl<T> NumericFieldEditorState<T> {
    /// Opens a session: the input buffer starts as the decimal
    /// rendering of the current value, with no error.
    pub fn new(init: NumericFieldEditorInit<T>) -> (r: Self)
        ensures
            r.name == init.name,
            r.value == init.value,
            r.original == init.original,
            r.target == init.target,
            r.input@ == dec_str(init.value as nat),
            r.error is None,
    {
        let input = u64_to_dec(init.value);
        NumericFieldEditorState {
            name: init.name,
            value: init.value,
            original: init.original,
            target: init.target,
            input,
            error: None,
        }
    }

    /// Handles one session command.
    ///
    /// A text change stores the text verbatim and re-parses it: a
    /// successful parse stages the value and clears the error; a failed
    /// parse records the exact validation message and leaves the staged
    /// value alone. A save request returns the staged value when no
    /// error is present and nothing otherwise; the caller must commit
    /// the returned value (paired with the stored target) before or
    /// atomically with closing the session.
    pub fn update(&mut self, message: NumericFieldEditorMessage) -> (commit: Option<u64>)
        ensures
            final(self).name == old(self).name,
            final(self).original == old(self).original,
            final(self).target == old(self).target,
            match message {
                NumericFieldEditorMessage::EditInput(text) => {
                    &&& commit is None
                    &&& final(self).input@ == text@
                    &&& match parse_u64_spec(text@) {
                        Some(v) => final(self).value == v && final(self).error is None,
                        None => {
                            &&& final(self).value == old(self).value
                            &&& final(self).error matches Some(e) && e@ == validation_error_text(
                                parse_failure(text@),
                            )
                        },
                    }
                },
                NumericFieldEditorMessage::Save => {
                    &&& *final(self) == *old(self)
                    &&& commit == (if old(self).error is None {
                        Some(old(self).value)
                    } else {
                        None::<u64>
                    })
                },
            },
    {
        match message {
            NumericFieldEditorMessage::EditInput(text) => {
                match parse_u64(text.as_str()) {
                    Ok(v) => {
                        self.value = v;
                        self.error = None;
                    },
                    Err(k) => {
                        self.error = Some(error_text(k));
                    },
                }
                self.input = text;
                None
            },
            NumericFieldEditorMessage::Save => {
                if self.error.is_some() {
                    return None;
                }
                Some(self.value)
            },
        }
    }
}

} // verus!
