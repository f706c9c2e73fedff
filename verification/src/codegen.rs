//! The source text that the macro expands to, built piece by piece from the
//! custom events, with each piece stated exactly over the events' views.
use vstd::prelude::*;

use crate::event::{
    events_view, has_bracket, key_code_has_bracket, ActionVariant, CustomEvent, KeyCodeExpr,
    SpecCustomEvent, SpecKeyCode, SpecVariant,
};
use crate::templates::{
    ACTION_PATH, ARM_ACTION, ARM_END, ARM_GUARD, ENUM_ATTRS, ENUM_HEAD, ENUM_TAIL, ITEM_SEP, KBD_HEAD,
    KBD_TAIL, LIB_ITEMS, LIST_SEP, PAYLOAD_CLOSE, PAYLOAD_OPEN, WRITER_IMPL_HEAD,
    WRITER_IMPL_TAIL, WRITE_ARM_BODY, WRITE_ARM_DATA, WRITE_ARM_END, WRITE_HEAD,
    WRITE_TAIL,
};

verus! {

/// The views of a sequence of strings.
pub open spec fn texts_view(v: Seq<String>) -> Seq<Seq<char>> {
    v.map_values(|s: String| s@)
}

/// Every item of `items`, in order, each followed by `sep`.
pub open spec fn terminated(items: Seq<Seq<char>>, sep: Seq<char>) -> Seq<char>
    decreases items.len(),
{
    if items.len() == 0 {
        Seq::empty()
    } else {
        terminated(items.drop_last(), sep) + items.last() + sep
    }
}

/// What a key code hands to its variant: its call arguments in
/// parentheses, or nothing when it is not a call.
pub open spec fn payload_text(call_args: Option<Seq<char>>) -> Seq<char> {
    match call_args {
        Some(a) => PAYLOAD_OPEN@ + a + PAYLOAD_CLOSE@,
        None => Seq::empty(),
    }
}

/// The `kbd_event` arm of one custom event: match the key code when the
/// modifiers equal the given bits, and produce the event's action.
pub open spec fn kbd_arm_text(
    key_code: SpecKeyCode,
    modifiers: Seq<char>,
    ia: SpecVariant,
) -> Seq<char> {
    key_code.tokens + ARM_GUARD@ + modifiers + ARM_ACTION@ + ACTION_PATH@ + ia.ident
        + payload_text(key_code.call_args) + ARM_END@
}

/// The `write` arm of one custom event: match its action, binding the
/// payload as `val` when `with_data`, and call its closure.
pub open spec fn write_arm_text(func: Seq<char>, ia: SpecVariant, with_data: bool) -> Seq<char> {
    ACTION_PATH@ + ia.ident + (if with_data {
        WRITE_ARM_DATA@
    } else {
        Seq::empty()
    }) + WRITE_ARM_BODY@ + func + WRITE_ARM_END@
}

/// The `InputAction` enum: the built-in actions, then the given variants.
pub open spec fn enum_text(variants: Seq<Seq<char>>) -> Seq<char> {
    ENUM_HEAD@ + terminated(variants, LIST_SEP@) + ENUM_TAIL@
}

/// `kbd_event`: the built-in bindings, then the given arms, then the
/// catch-all.
pub open spec fn kbd_fn_text(arms: Seq<Seq<char>>) -> Seq<char> {
    KBD_HEAD@ + terminated(arms, Seq::empty()) + KBD_TAIL@
}

/// `write`: the built-in actions, then the given arms.
pub open spec fn write_fn_text(arms: Seq<Seq<char>>) -> Seq<char> {
    WRITE_HEAD@ + terminated(arms, LIST_SEP@) + WRITE_TAIL@
}

/// The declared variant of each event, in order.
pub open spec fn variant_texts(events: Seq<SpecCustomEvent>) -> Seq<Seq<char>> {
    events.map_values(|e: SpecCustomEvent| e.input_action.tokens)
}

/// The `kbd_event` arm of each event, in order.
pub open spec fn kbd_arm_texts(events: Seq<SpecCustomEvent>) -> Seq<Seq<char>> {
    events.map_values(|e: SpecCustomEvent| kbd_arm_text(e.key_code, e.modifiers, e.input_action))
}

/// The `write` arm of each event, in order; the payload is bound when the
/// key code's text holds a bracket.
pub open spec fn write_arm_texts(events: Seq<SpecCustomEvent>) -> Seq<Seq<char>> {
    events.map_values(
        |e: SpecCustomEvent|
            write_arm_text(e.func, e.input_action, has_bracket(e.key_code.tokens)),
    )
}

/// The whole expansion for the given events.
pub open spec fn expansion_text(events: Seq<SpecCustomEvent>) -> Seq<char> {
    LIB_ITEMS@ + ENUM_ATTRS@ + enum_text(variant_texts(events)) + ITEM_SEP@
        + kbd_fn_text(kbd_arm_texts(events)) + WRITER_IMPL_HEAD@
        + write_fn_text(write_arm_texts(events)) + WRITER_IMPL_TAIL@
}

/// Appends every item of `items` to `out`, each followed by `sep`.
pub fn append_terminated(out: &mut String, items: &Vec<String>, sep: &str)
    ensures
        final(out)@ == old(out)@ + terminated(texts_view(items@), sep@),
{
    let ghost start = out@;
    let ghost all = texts_view(items@);
    let n = items.len();
    let mut i: usize = 0;
    assert(all.take(0) =~= Seq::<Seq<char>>::empty());
    while i < n
        invariant
            n == items@.len(),
            all == texts_view(items@),
            i <= n,
            out@ == start + terminated(all.take(i as int), sep@),
        decreases n - i,
    {
        out.append(items[i].as_str());
        out.append(sep);
        proof {
            assert(all.take(i + 1).drop_last() =~= all.take(i as int));
            assert(all.take(i + 1).last() == items@[i as int]@);
        }
        i = i + 1;
    }
    assert(all.take(n as int) =~= all);
}

/// The support items every expansion starts with.
pub fn gen_lib() -> (res: String)
    ensures
        res@ == LIB_ITEMS@,
{
    let mut s = String::new();
    s.append(LIB_ITEMS);
    s
}

/// The `InputAction` enum with the built-in actions and the given variants.
pub fn input_actions_enum(ia: Vec<String>) -> (res: String)
    ensures
        res@ == enum_text(texts_view(ia@)),
{
    let mut s = String::new();
    s.append(ENUM_HEAD);
    append_terminated(&mut s, &ia, LIST_SEP);
    s.append(ENUM_TAIL);
    s
}

/// The `kbd_event` arm of one custom event.
pub fn kbd_events_arm(
    key_code: &KeyCodeExpr,
    modifiers: &String,
    ia: &ActionVariant,
) -> (res: String)
    ensures
        res@ == kbd_arm_text(key_code@, modifiers@, ia@),
{
    let mut s = String::new();
    s.append(key_code.tokens.as_str());
    s.append(ARM_GUARD);
    s.append(modifiers.as_str());
    s.append(ARM_ACTION);
    s.append(ACTION_PATH);
    s.append(ia.ident.as_str());
    match &key_code.call_args {
        Some(args) => {
            s.append(PAYLOAD_OPEN);
            s.append(args.as_str());
            s.append(PAYLOAD_CLOSE);
        },
        None => {},
    }
    s.append(ARM_END);
    s
}

/// `kbd_event` with the built-in bindings, the given arms and the catch-all.
pub fn kbd_events_fn(kbd_events: Vec<String>) -> (res: String)
    ensures
        res@ == kbd_fn_text(texts_view(kbd_events@)),
{
    let mut s = String::new();
    s.append(KBD_HEAD);
    append_terminated(&mut s, &kbd_events, "");
    proof {
        reveal_strlit("");
        assert(""@ =~= Seq::<char>::empty());
    }
    s.append(KBD_TAIL);
    s
}

/// The `write` arm of one custom event.
pub fn input_write_arm(func: &String, ia: &ActionVariant, with_data: bool) -> (res: String)
    ensures
        res@ == write_arm_text(func@, ia@, with_data),
{
    let mut s = String::new();
    s.append(ACTION_PATH);
    s.append(ia.ident.as_str());
    if with_data {
        s.append(WRITE_ARM_DATA);
    }
    s.append(WRITE_ARM_BODY);
    s.append(func.as_str());
    s.append(WRITE_ARM_END);
    s
}

/// `write` with the built-in actions and the given arms.
pub fn input_write(arms: Vec<String>) -> (res: String)
    ensures
        res@ == write_fn_text(texts_view(arms@)),
{
    let mut s = String::new();
    s.append(WRITE_HEAD);
    append_terminated(&mut s, &arms, LIST_SEP);
    s.append(WRITE_TAIL);
    s
}

/// Walks the events once and returns, for each of them in order, its
/// declared variant, its `kbd_event` arm and its `write` arm.
pub fn punctuated_converge(input: &Vec<CustomEvent>) -> (res: (Vec<String>, Vec<String>, Vec<String>))
    ensures
        texts_view(res.0@) == variant_texts(events_view(input@)),
        texts_view(res.1@) == kbd_arm_texts(events_view(input@)),
        texts_view(res.2@) == write_arm_texts(events_view(input@)),
{
    let mut input_actions: Vec<String> = Vec::new();
    let mut kbd_events: Vec<String> = Vec::new();
    let mut write_arms: Vec<String> = Vec::new();
    let ghost evs = events_view(input@);
    let n = input.len();
    let mut i: usize = 0;
    while i < n
        invariant
            n == input@.len(),
            evs == events_view(input@),
            i <= n,
            input_actions@.len() == i,
            kbd_events@.len() == i,
            write_arms@.len() == i,
            forall|j: int|
                0 <= j < i ==> #[trigger] input_actions@[j]@ == evs[j].input_action.tokens,
            forall|j: int|
                0 <= j < i ==> #[trigger] kbd_events@[j]@ == kbd_arm_text(
                    evs[j].key_code,
                    evs[j].modifiers,
                    evs[j].input_action,
                ),
            forall|j: int|
                0 <= j < i ==> #[trigger] write_arms@[j]@ == write_arm_text(
                    evs[j].func,
                    evs[j].input_action,
                    has_bracket(evs[j].key_code.tokens),
                ),
        decreases n - i,
    {
        let ce = &input[i];
        input_actions.push(ce.input_action.tokens.clone());
        kbd_events.push(kbd_events_arm(&ce.key_code, &ce.modifiers, &ce.input_action));
        let with_data = key_code_has_bracket(&ce.key_code.tokens);
        write_arms.push(input_write_arm(&ce.func, &ce.input_action, with_data));
        i = i + 1;
    }
    assert(texts_view(input_actions@) =~= variant_texts(evs));
    assert(texts_view(kbd_events@) =~= kbd_arm_texts(evs));
    assert(texts_view(write_arms@) =~= write_arm_texts(evs));
    (input_actions, kbd_events, write_arms)
}

/// The whole expansion for `events`: the support items, the derived
/// `InputAction` enum, `kbd_event`, and the `Writer` impl holding `write`.
pub fn expansion_source(events: &Vec<CustomEvent>) -> (res: String)
    ensures
        res@ == expansion_text(events_view(events@)),
{
    let (input_actions, kbd_events, write_arms) = punctuated_converge(events);
    let input_actions = input_actions_enum(input_actions);
    let kbd_events = kbd_events_fn(kbd_events);
    let input_write = input_write(write_arms);
    let mut s = gen_lib();
    s.append(ENUM_ATTRS);
    s.append(input_actions.as_str());
    s.append(ITEM_SEP);
    s.append(kbd_events.as_str());
    s.append(WRITER_IMPL_HEAD);
    s.append(input_write.as_str());
    s.append(WRITER_IMPL_TAIL);
    s
}

} // verus!
