//! Properties that hold of every expansion, proved over the exact
//! contracts of the expansion pieces.
use vstd::prelude::*;

use crate::codegen::{
    enum_text, expansion_text, kbd_arm_text, kbd_arm_texts, kbd_fn_text, payload_text,
    terminated, variant_texts, write_arm_text, write_arm_texts, write_fn_text,
};
use crate::event::{has_bracket, is_bracket, occurs_at, SpecCustomEvent};
use crate::event::{SpecKeyCode, SpecVariant};
use crate::templates::{
    ACTION_PATH, ARM_ACTION, ARM_END, ARM_GUARD, ENUM_ATTRS, ENUM_HEAD, ENUM_TAIL, ITEM_SEP,
    KBD_HEAD, KBD_TAIL, LIB_ITEMS, LIST_SEP, PAYLOAD_CLOSE, PAYLOAD_OPEN, WRITER_IMPL_HEAD,
    WRITER_IMPL_TAIL, WRITE_ARM_BODY, WRITE_ARM_DATA, WRITE_ARM_END, WRITE_HEAD, WRITE_TAIL,
};

verus! {

/// An occurrence inside `a` stays an occurrence, shifted by `p.len()`,
/// inside `p + a + q`.
proof fn lemma_occurs_in_context(p: Seq<char>, a: Seq<char>, q: Seq<char>, n: Seq<char>, k: int)
    requires
        occurs_at(a, n, k),
    ensures
        occurs_at(p + a + q, n, p.len() + k),
{
    let s = p + a + q;
    assert(s.subrange(p.len() + k, p.len() + k + n.len()) =~= a.subrange(k, k + n.len()));
}

/// Item `i` of `items` stands in `terminated(items, sep)` right after the
/// first `i` items and their separators.
proof fn lemma_terminated_item(items: Seq<Seq<char>>, sep: Seq<char>, i: int)
    requires
        0 <= i < items.len(),
    ensures
        occurs_at(terminated(items, sep), items[i], terminated(items.take(i), sep).len() as int),
    decreases items.len(),
{
    let front = items.drop_last();
    if i == items.len() - 1 {
        assert(items.take(i) =~= front);
        assert(items[i].subrange(0, items[i].len() as int) =~= items[i]);
        lemma_occurs_in_context(terminated(front, sep), items[i], sep, items[i], 0);
    } else {
        lemma_terminated_item(front, sep, i);
        assert(front.take(i) =~= items.take(i));
        lemma_occurs_in_context(
            Seq::empty(),
            terminated(front, sep),
            items.last() + sep,
            items[i],
            terminated(items.take(i), sep).len() as int,
        );
        assert(Seq::<char>::empty() + terminated(front, sep) + (items.last() + sep)
            =~= terminated(items, sep));
    }
}

/// The terminated first `a` items are a prefix of the terminated first `b`.
proof fn lemma_terminated_prefix(items: Seq<Seq<char>>, sep: Seq<char>, a: int, b: int)
    requires
        0 <= a <= b <= items.len(),
    ensures
        terminated(items.take(a), sep).is_prefix_of(terminated(items.take(b), sep)),
    decreases b,
{
    if a < b {
        lemma_terminated_prefix(items, sep, a, b - 1);
        assert(items.take(b).drop_last() =~= items.take(b - 1));
        let x = terminated(items.take(a), sep);
        let y = terminated(items.take(b - 1), sep);
        let z = terminated(items.take(b), sep);
        assert(z == y + items.take(b).last() + sep);
        assert forall|k: int| 0 <= k < x.len() implies #[trigger] x[k] == z[k] by {
            assert(x[k] == y[k]);
        }
    }
}

/// Item `i`, with its separator, ends the terminated first `i + 1` items.
proof fn lemma_terminated_step(items: Seq<Seq<char>>, sep: Seq<char>, i: int)
    requires
        0 <= i < items.len(),
    ensures
        terminated(items.take(i + 1), sep) == terminated(items.take(i), sep) + items[i] + sep,
{
    assert(items.take(i + 1).drop_last() =~= items.take(i));
    assert(items.take(i + 1).last() == items[i]);
}

/// Within `text == p + (head + terminated(items, sep) + tail) + q`: the
/// head, then item `i` and item `j` (each with its separator) in that
/// order, then the tail. Returns their positions.
proof fn lemma_section(
    p: Seq<char>,
    head: Seq<char>,
    items: Seq<Seq<char>>,
    sep: Seq<char>,
    tail: Seq<char>,
    q: Seq<char>,
    i: int,
    j: int,
) -> (pos: (int, int, int, int))
    requires
        0 <= i <= j < items.len(),
    ensures
        ({
            let text = p + (head + terminated(items, sep) + tail) + q;
            &&& pos.0 == p.len()
            &&& occurs_at(text, head, pos.0)
            &&& occurs_at(text, items[i] + sep, pos.1)
            &&& occurs_at(text, items[j] + sep, pos.2)
            &&& occurs_at(text, tail, pos.3)
            &&& pos.0 + head.len() <= pos.1
            &&& i < j ==> pos.1 + items[i].len() + sep.len() <= pos.2
            &&& pos.1 <= pos.2
            &&& pos.2 + items[j].len() + sep.len() <= pos.3
        }),
{
    let t = terminated(items, sep);
    let section = head + t + tail;
    let text = p + section + q;
    let n = items.len() as int;
    assert(items.take(n) =~= items);
    let ti = terminated(items.take(i), sep);
    let tj = terminated(items.take(j), sep);
    let ki: int = (p.len() + head.len() + ti.len()) as int;
    let kj: int = (p.len() + head.len() + tj.len()) as int;
    let kt: int = (p.len() + head.len() + t.len()) as int;
    let k0: int = p.len() as int;
    let fl: int = (items[i] + sep).len() as int;
    let gl: int = (items[j] + sep).len() as int;
    let hl: int = head.len() as int;
    let tl: int = tail.len() as int;
    // positions of the items inside t
    lemma_terminated_step(items, sep, i);
    lemma_terminated_step(items, sep, j);
    lemma_terminated_prefix(items, sep, i + 1, n);
    lemma_terminated_prefix(items, sep, j + 1, n);
    if i < j {
        lemma_terminated_prefix(items, sep, i + 1, j);
    }
    let ti1 = terminated(items.take(i + 1), sep);
    let tj1 = terminated(items.take(j + 1), sep);
    let fi = items[i] + sep;
    let fj = items[j] + sep;
    assert(text.subrange(k0, k0 + hl) =~= head);
    assert(text.subrange(ki, ki + fl) =~= fi) by {
        assert forall|k: int| 0 <= k < fi.len() implies #[trigger] text.subrange(ki, ki + fl)[k] == fi[k] by {
            assert(ti1[ti.len() + k] == fi[k]);
            assert(t[ti.len() + k] == ti1[ti.len() + k]);
        }
    }
    assert(text.subrange(kj, kj + gl) =~= fj) by {
        assert forall|k: int| 0 <= k < fj.len() implies #[trigger] text.subrange(kj, kj + gl)[k] == fj[k] by {
            assert(tj1[tj.len() + k] == fj[k]);
            assert(t[tj.len() + k] == tj1[tj.len() + k]);
        }
    }
    assert(text.subrange(kt, kt + tl) =~= tail);
    if i < j {
        assert(ti1.len() <= tj.len());
    }
    (k0, ki, kj, kt)
}

/// A prefix of `s` occurs in `s` at position zero.
proof fn lemma_prefix_occurs(prefix: Seq<char>, s: Seq<char>)
    requires
        prefix.is_prefix_of(s),
    ensures
        occurs_at(s, prefix, 0),
{
    assert(s.subrange(0, prefix.len() as int) =~= prefix);
}

/// The enum of every expansion opens right after the support items and
/// declares each event's whole variant, name and payload types as written,
/// followed by a comma: after the built-in actions, before the enum's
/// close, and in the order of the events. Returns the positions of the
/// opening, of variants `i` and `j`, and of the close.
pub proof fn law_enum_declares_whole_variants(events: Seq<SpecCustomEvent>, i: int, j: int) -> (pos: (
    int,
    int,
    int,
    int,
))
    requires
        0 <= i <= j < events.len(),
    ensures
        ({
            let text = expansion_text(events);
            let vi = events[i].input_action.tokens;
            let vj = events[j].input_action.tokens;
            &&& pos.0 == LIB_ITEMS@.len() + ENUM_ATTRS@.len()
            &&& occurs_at(text, ENUM_HEAD@, pos.0)
            &&& occurs_at(text, vi + LIST_SEP@, pos.1)
            &&& occurs_at(text, vj + LIST_SEP@, pos.2)
            &&& occurs_at(text, ENUM_TAIL@, pos.3)
            &&& pos.0 + ENUM_HEAD@.len() <= pos.1 <= pos.2
            &&& i < j ==> pos.1 + vi.len() + LIST_SEP@.len() <= pos.2
            &&& pos.2 + vj.len() + LIST_SEP@.len() <= pos.3
        }),
{
    let items = variant_texts(events);
    let p = LIB_ITEMS@ + ENUM_ATTRS@;
    let q = ITEM_SEP@ + kbd_fn_text(kbd_arm_texts(events)) + WRITER_IMPL_HEAD@ + write_fn_text(
        write_arm_texts(events),
    ) + WRITER_IMPL_TAIL@;
    let pos = lemma_section(p, ENUM_HEAD@, items, LIST_SEP@, ENUM_TAIL@, q, i, j);
    assert(expansion_text(events) =~= p + (ENUM_HEAD@ + terminated(items, LIST_SEP@)
        + ENUM_TAIL@) + q);
    assert(items[i] == events[i].input_action.tokens);
    assert(items[j] == events[j].input_action.tokens);
    pos
}

/// `kbd_event` of every expansion holds one arm per event, after the
/// built-in bindings, before the catch-all, and in the order of the events.
/// The arm of an event fires on its key code when the key's modifiers
/// equal the event's modifier bits, written verbatim, and produces
/// `InputAction::name`, handed the call arguments in parentheses when the
/// key code is a call. Returns the positions of the bindings' opening, of
/// arms `i` and `j`, and of the catch-all.
pub proof fn law_kbd_event_arms(events: Seq<SpecCustomEvent>, i: int, j: int) -> (pos: (
    int,
    int,
    int,
    int,
))
    requires
        0 <= i <= j < events.len(),
    ensures
        ({
            let text = expansion_text(events);
            let ei = events[i];
            let ej = events[j];
            let pay_i = match ei.key_code.call_args {
                Some(a) => PAYLOAD_OPEN@ + a + PAYLOAD_CLOSE@,
                None => Seq::<char>::empty(),
            };
            let pay_j = match ej.key_code.call_args {
                Some(a) => PAYLOAD_OPEN@ + a + PAYLOAD_CLOSE@,
                None => Seq::<char>::empty(),
            };
            let arm_i = ei.key_code.tokens + ARM_GUARD@ + ei.modifiers + ARM_ACTION@
                + ACTION_PATH@ + ei.input_action.ident + pay_i + ARM_END@;
            let arm_j = ej.key_code.tokens + ARM_GUARD@ + ej.modifiers + ARM_ACTION@
                + ACTION_PATH@ + ej.input_action.ident + pay_j + ARM_END@;
            &&& occurs_at(text, KBD_HEAD@, pos.0)
            &&& occurs_at(text, arm_i, pos.1)
            &&& occurs_at(text, arm_j, pos.2)
            &&& occurs_at(text, KBD_TAIL@, pos.3)
            &&& pos.0 + KBD_HEAD@.len() <= pos.1 <= pos.2
            &&& i < j ==> pos.1 + arm_i.len() <= pos.2
            &&& pos.2 + arm_j.len() <= pos.3
        }),
{
    let items = kbd_arm_texts(events);
    let e: Seq<char> = Seq::empty();
    let p = LIB_ITEMS@ + ENUM_ATTRS@ + enum_text(variant_texts(events)) + ITEM_SEP@;
    let q = WRITER_IMPL_HEAD@ + write_fn_text(write_arm_texts(events)) + WRITER_IMPL_TAIL@;
    let pos = lemma_section(p, KBD_HEAD@, items, e, KBD_TAIL@, q, i, j);
    assert(expansion_text(events) =~= p + (KBD_HEAD@ + terminated(items, e) + KBD_TAIL@) + q);
    assert(items[i] + e =~= items[i]);
    assert(items[j] + e =~= items[j]);
    let ei = events[i];
    let ej = events[j];
    assert(items[i] == kbd_arm_text(ei.key_code, ei.modifiers, ei.input_action));
    assert(items[j] == kbd_arm_text(ej.key_code, ej.modifiers, ej.input_action));
    pos
}

/// `write` of every expansion holds one arm per event, after the built-in
/// actions, before its close, and in the order of the events. The arm
/// matches `InputAction::name`, binds the payload as `val` exactly when the
/// event's key code holds a bracket, and calls the event's closure. Returns
/// the positions of the built-in actions' opening, of arms `i` and `j`, and
/// of the close.
pub proof fn law_write_arms(events: Seq<SpecCustomEvent>, i: int, j: int) -> (pos: (
    int,
    int,
    int,
    int,
))
    requires
        0 <= i <= j < events.len(),
    ensures
        ({
            let text = expansion_text(events);
            let ei = events[i];
            let ej = events[j];
            let bind_i = if has_bracket(ei.key_code.tokens) {
                WRITE_ARM_DATA@
            } else {
                Seq::<char>::empty()
            };
            let bind_j = if has_bracket(ej.key_code.tokens) {
                WRITE_ARM_DATA@
            } else {
                Seq::<char>::empty()
            };
            let arm_i = ACTION_PATH@ + ei.input_action.ident + bind_i + WRITE_ARM_BODY@ + ei.func
                + WRITE_ARM_END@ + LIST_SEP@;
            let arm_j = ACTION_PATH@ + ej.input_action.ident + bind_j + WRITE_ARM_BODY@ + ej.func
                + WRITE_ARM_END@ + LIST_SEP@;
            &&& occurs_at(text, WRITE_HEAD@, pos.0)
            &&& occurs_at(text, arm_i, pos.1)
            &&& occurs_at(text, arm_j, pos.2)
            &&& occurs_at(text, WRITE_TAIL@, pos.3)
            &&& pos.0 + WRITE_HEAD@.len() <= pos.1 <= pos.2
            &&& i < j ==> pos.1 + arm_i.len() <= pos.2
            &&& pos.2 + arm_j.len() <= pos.3
        }),
{
    let items = write_arm_texts(events);
    let p = LIB_ITEMS@ + ENUM_ATTRS@ + enum_text(variant_texts(events)) + ITEM_SEP@ + kbd_fn_text(
        kbd_arm_texts(events),
    ) + WRITER_IMPL_HEAD@;
    let q = WRITER_IMPL_TAIL@;
    let pos = lemma_section(p, WRITE_HEAD@, items, LIST_SEP@, WRITE_TAIL@, q, i, j);
    assert(expansion_text(events) =~= p + (WRITE_HEAD@ + terminated(items, LIST_SEP@)
        + WRITE_TAIL@) + q);
    let ei = events[i];
    let ej = events[j];
    assert(items[i] == write_arm_text(ei.func, ei.input_action, has_bracket(ei.key_code.tokens)));
    assert(items[j] == write_arm_text(ej.func, ej.input_action, has_bracket(ej.key_code.tokens)));
    pos
}

/// The `kbd_event` arm of one event starts with the key code, follows it
/// with the modifier guard holding the modifier bits verbatim and the
/// production of `InputAction::name`, and ends with the call arguments in
/// parentheses when the key code is a call, then the arm's close.
pub proof fn law_kbd_arm_guard_and_action(key: SpecKeyCode, mods: Seq<char>, ia: SpecVariant)
    ensures
        ({
            let arm = kbd_arm_text(key, mods, ia);
            let fires = ARM_GUARD@ + mods + ARM_ACTION@ + ACTION_PATH@ + ia.ident;
            let tail = match key.call_args {
                Some(a) => PAYLOAD_OPEN@ + a + PAYLOAD_CLOSE@ + ARM_END@,
                None => ARM_END@,
            };
            &&& key.tokens.is_prefix_of(arm)
            &&& occurs_at(arm, fires, key.tokens.len() as int)
            &&& occurs_at(arm, tail, (key.tokens.len() + fires.len()) as int)
            &&& arm.len() == key.tokens.len() + fires.len() + tail.len()
        }),
{
    let arm = kbd_arm_text(key, mods, ia);
    let fires = ARM_GUARD@ + mods + ARM_ACTION@ + ACTION_PATH@ + ia.ident;
    let tail = match key.call_args {
        Some(a) => PAYLOAD_OPEN@ + a + PAYLOAD_CLOSE@ + ARM_END@,
        None => ARM_END@,
    };
    assert(arm =~= key.tokens + fires + tail);
    let k0: int = key.tokens.len() as int;
    let k1: int = k0 + fires.len();
    assert(arm.subrange(k0, k1) =~= fires);
    assert(arm.subrange(k1, k1 + tail.len()) =~= tail);
}

/// The `write` arm of one action starts with `InputAction::name`, binds
/// the payload as `val` right after the name exactly when `with_data`, and
/// ends by calling the closure: the closure text verbatim inside `(..)()`.
pub proof fn law_write_arm_calls_closure(func: Seq<char>, ia: SpecVariant, with_data: bool)
    ensures
        ({
            let arm = write_arm_text(func, ia, with_data);
            let named = ACTION_PATH@ + ia.ident;
            let call = WRITE_ARM_BODY@ + func + WRITE_ARM_END@;
            &&& named.is_prefix_of(arm)
            &&& occurs_at(arm, call, arm.len() - call.len())
            &&& with_data ==> occurs_at(arm, WRITE_ARM_DATA@, named.len() as int)
            &&& arm.len() == named.len() + (if with_data {
                WRITE_ARM_DATA@.len()
            } else {
                0
            }) + call.len()
        }),
{
    let arm = write_arm_text(func, ia, with_data);
    let named = ACTION_PATH@ + ia.ident;
    let call = WRITE_ARM_BODY@ + func + WRITE_ARM_END@;
    let bind = if with_data {
        WRITE_ARM_DATA@
    } else {
        Seq::<char>::empty()
    };
    assert(arm =~= named + bind + call);
    let n: int = named.len() as int;
    assert(arm.subrange(0, n) =~= named);
    assert(arm.subrange(arm.len() - call.len(), arm.len() as int) =~= call);
    if with_data {
        assert(arm.subrange(n, n + bind.len()) =~= bind);
    }
}

/// Every custom action is declared, produced and handled under one name:
/// the `InputAction` enum declares the event's variant, whose name opens
/// its declaration; `kbd_event` has an arm producing `InputAction::name`;
/// and `write` has an arm matching `InputAction::name`.
pub proof fn law_custom_action_declared_produced_handled(events: Seq<SpecCustomEvent>, i: int)
    requires
        0 <= i < events.len(),
        events[i].wf(),
    ensures
        exists|k: int|
            #[trigger] occurs_at(
                enum_text(variant_texts(events)),
                events[i].input_action.ident,
                k,
            ),
        exists|k: int|
            #[trigger] occurs_at(
                kbd_fn_text(kbd_arm_texts(events)),
                ACTION_PATH@ + events[i].input_action.ident,
                k,
            ),
        exists|k: int|
            #[trigger] occurs_at(
                write_fn_text(write_arm_texts(events)),
                ACTION_PATH@ + events[i].input_action.ident,
                k,
            ),
{
    let e = events[i];
    let name = e.input_action.ident;
    let named = ACTION_PATH@ + name;

    // The enum.
    let variants = variant_texts(events);
    lemma_terminated_item(variants, LIST_SEP@, i);
    let kv = terminated(variants.take(i), LIST_SEP@).len() as int;
    lemma_prefix_occurs(name, e.input_action.tokens);
    assert(occurs_at(variants[i], name, 0));
    assert(occurs_at(terminated(variants, LIST_SEP@), name, kv)) by {
        let t = terminated(variants, LIST_SEP@);
        assert(t.subrange(kv, kv + name.len()) =~= variants[i].subrange(0, name.len() as int));
    }
    lemma_occurs_in_context(ENUM_HEAD@, terminated(variants, LIST_SEP@), ENUM_TAIL@, name, kv);
    assert(ENUM_HEAD@ + terminated(variants, LIST_SEP@) + ENUM_TAIL@ == enum_text(variants));

    // The keyboard arm.
    let arms = kbd_arm_texts(events);
    let arm = kbd_arm_text(e.key_code, e.modifiers, e.input_action);
    let ka: int = (e.key_code.tokens.len() + ARM_GUARD@.len() + e.modifiers.len() + ARM_ACTION@.len()) as int;
    assert(arms[i] == arm);
    assert(arm.subrange(ka, ka + named.len()) =~= named);
    lemma_terminated_item(arms, Seq::empty(), i);
    let kk = terminated(arms.take(i), Seq::empty()).len() as int;
    assert(occurs_at(terminated(arms, Seq::empty()), named, kk + ka)) by {
        let t = terminated(arms, Seq::empty());
        assert(t.subrange(kk + ka, kk + ka + named.len()) =~= arm.subrange(ka, ka + named.len()));
    }
    lemma_occurs_in_context(KBD_HEAD@, terminated(arms, Seq::empty()), KBD_TAIL@, named, kk + ka);
    assert(KBD_HEAD@ + terminated(arms, Seq::empty()) + KBD_TAIL@ == kbd_fn_text(arms));

    // The write arm.
    let warms = write_arm_texts(events);
    let warm = write_arm_text(e.func, e.input_action, has_bracket(e.key_code.tokens));
    assert(warms[i] == warm);
    assert(warm.subrange(0, named.len() as int) =~= named);
    lemma_terminated_item(warms, LIST_SEP@, i);
    let kw = terminated(warms.take(i), LIST_SEP@).len() as int;
    assert(occurs_at(terminated(warms, LIST_SEP@), named, kw)) by {
        let t = terminated(warms, LIST_SEP@);
        assert(t.subrange(kw, kw + named.len()) =~= warm.subrange(0, named.len() as int));
    }
    lemma_occurs_in_context(WRITE_HEAD@, terminated(warms, LIST_SEP@), WRITE_TAIL@, named, kw);
    assert(WRITE_HEAD@ + terminated(warms, LIST_SEP@) + WRITE_TAIL@ == write_fn_text(warms));
}

/// A key code written as a call hands its arguments, in parentheses, to
/// its action in `kbd_event`, and the `write` arm of that action binds the
/// payload as `val`.
pub proof fn law_call_payload_bound(events: Seq<SpecCustomEvent>, i: int)
    requires
        0 <= i < events.len(),
        events[i].wf(),
        events[i].key_code.call_args is Some,
    ensures
        ({
            let e = events[i];
            let handed = ACTION_PATH@ + e.input_action.ident + PAYLOAD_OPEN@
                + e.key_code.call_args->0 + PAYLOAD_CLOSE@;
            exists|k: int| #[trigger] occurs_at(kbd_arm_texts(events)[i], handed, k)
        }),
        write_arm_texts(events)[i] == write_arm_text(events[i].func, events[i].input_action, true),
{
    let e = events[i];
    let args = e.key_code.call_args->0;
    let handed = ACTION_PATH@ + e.input_action.ident + PAYLOAD_OPEN@ + args + PAYLOAD_CLOSE@;
    let arm = kbd_arm_texts(events)[i];
    let ka: int = (e.key_code.tokens.len() + ARM_GUARD@.len() + e.modifiers.len() + ARM_ACTION@.len()) as int;
    assert(payload_text(e.key_code.call_args) == PAYLOAD_OPEN@ + args + PAYLOAD_CLOSE@);
    assert(arm.subrange(ka, ka + handed.len()) =~= handed);
    assert(occurs_at(arm, handed, ka));
    let j = choose|j: int| 0 <= j < e.key_code.tokens.len() && e.key_code.tokens[j] == '(';
    assert(is_bracket(e.key_code.tokens[j]));
    assert(has_bracket(e.key_code.tokens));
}

} // verus!
