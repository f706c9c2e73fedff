//! The plain-value description of one custom keyboard event, as it is
//! written in the macro input: a key-code expression, a modifier-bits
//! literal, an `InputAction` variant and the closure run for it.
use vstd::prelude::*;

verus! {

/// The key-code expression of an event (for example `KeyCode::F(5)`),
/// held as its token text.
pub struct KeyCodeExpr {
    /// Token text of the whole expression.
    pub tokens: String,
    /// Token text of the call arguments when the expression is a call
    /// (`5` for `KeyCode::F(5)`), `None` for any other expression.
    pub call_args: Option<String>,
}

/// The `InputAction` variant that an event adds (for example `TestF(u8)`).
pub struct ActionVariant {
    /// The variant's name alone (`TestF`).
    pub ident: String,
    /// Token text of the whole variant declaration (`TestF (u8)`).
    pub tokens: String,
}

/// One entry of the macro input: `key_code, modifiers, Variant, || { .. }`.
pub struct CustomEvent {
    pub key_code: KeyCodeExpr,
    /// Token text of the modifier-bits literal (`0x0`).
    pub modifiers: String,
    pub input_action: ActionVariant,
    /// Token text of the closure run when the action is written.
    pub func: String,
}

/// Mathematical view of a [`KeyCodeExpr`].
pub ghost struct SpecKeyCode {
    pub tokens: Seq<char>,
    pub call_args: Option<Seq<char>>,
}

/// Mathematical view of an [`ActionVariant`].
pub ghost struct SpecVariant {
    pub ident: Seq<char>,
    pub tokens: Seq<char>,
}

/// Mathematical view of a [`CustomEvent`].
pub ghost struct SpecCustomEvent {
    pub key_code: SpecKeyCode,
    pub modifiers: Seq<char>,
    pub input_action: SpecVariant,
    pub func: Seq<char>,
}

impl View for KeyCodeExpr {
    type V = SpecKeyCode;

    open spec fn view(&self) -> SpecKeyCode {
        SpecKeyCode {
            tokens: self.tokens@,
            call_args: match self.call_args {
                Some(a) => Some(a@),
                None => None,
            },
        }
    }
}

impl View for ActionVariant {
    type V = SpecVariant;

    open spec fn view(&self) -> SpecVariant {
        SpecVariant { ident: self.ident@, tokens: self.tokens@ }
    }
}

impl View for CustomEvent {
    type V = SpecCustomEvent;

    open spec fn view(&self) -> SpecCustomEvent {
        SpecCustomEvent {
            key_code: self.key_code@,
            modifiers: self.modifiers@,
            input_action: self.input_action@,
            func: self.func@,
        }
    }
}

/// The views of a sequence of events, in order.
pub open spec fn events_view(events: Seq<CustomEvent>) -> Seq<SpecCustomEvent> {
    events.map_values(|e: CustomEvent| e@)
}

/// `c` is one of the characters `(`, `)`, `{`, `}`.
pub open spec fn is_bracket(c: char) -> bool {
    c == '(' || c == ')' || c == '{' || c == '}'
}

/// Some character of `s` is a bracket.
pub open spec fn has_bracket(s: Seq<char>) -> bool {
    exists|i: int| 0 <= i < s.len() && is_bracket(#[trigger] s[i])
}

/// `needle` occurs in `s` starting at position `at`.
pub open spec fn occurs_at(s: Seq<char>, needle: Seq<char>, at: int) -> bool {
    0 <= at && at + needle.len() <= s.len() && s.subrange(at, at + needle.len()) == needle
}

impl SpecCustomEvent {
    /// What the token text of a parsed event always satisfies: a call
    /// expression prints its opening parenthesis, and a variant
    /// declaration starts with its name.
    pub open spec fn wf(self) -> bool {
        &&& self.key_code.call_args is Some ==> self.key_code.tokens.contains('(')
        &&& self.input_action.ident.len() > 0
        &&& self.input_action.ident.is_prefix_of(self.input_action.tokens)
    }
}

/// Whether the key-code text holds a bracket; an event whose key code does
/// carries a payload into its `InputAction` arm of `write`.
pub fn key_code_has_bracket(s: &String) -> (res: bool)
    ensures
        res == has_bracket(s@),
{
    let t = s.as_str();
    let n = t.unicode_len();
    let mut i: usize = 0;
    while i < n
        invariant
            n == t@.len(),
            t@ == s@,
            i <= n,
            forall|j: int| 0 <= j < i ==> !is_bracket(#[trigger] s@[j]),
        decreases n - i,
    {
        let c = t.get_char(i);
        if c == '(' || c == ')' || c == '{' || c == '}' {
            return true;
        }
        i = i + 1;
    }
    false
}

} // verus!
